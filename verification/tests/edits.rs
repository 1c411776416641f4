use discord::json::{Json, JsonNumber};
use discord::model::{ChannelSummary, PublicChannelKind};
use discord::edits::{edit_channel_fields, profile_fields, user_profile_fields, channel_summary};
use discord::error::Error;

fn members(v: Vec<(&str, Json)>) -> Vec<(String, Json)> {
    v.into_iter().map(|(k, j)| (k.to_string(), j)).collect()
}

#[test]
fn text_channels_keep_name_position_and_topic() {
    let c = ChannelSummary::Public {
        name: "general".into(),
        position: 2,
        kind: PublicChannelKind::Text,
        topic: Some("hi".into()),
        bitrate: None,
        user_limit: None,
    };
    assert_eq!(edit_channel_fields(&c).unwrap(), members(vec![
        ("name", Json::Str("general".into())),
        ("position", Json::Number(JsonNumber::PosInt(2))),
        ("topic", Json::Str("hi".into())),
    ]));
}

#[test]
fn voice_channels_keep_bitrate_and_user_limit() {
    let c = ChannelSummary::Public {
        name: "talk".into(),
        position: -1,
        kind: PublicChannelKind::Voice,
        topic: None,
        bitrate: Some(64000),
        user_limit: None,
    };
    assert_eq!(edit_channel_fields(&c).unwrap(), members(vec![
        ("name", Json::Str("talk".into())),
        ("position", Json::Number(JsonNumber::NegInt(-1))),
        ("bitrate", Json::Number(JsonNumber::PosInt(64000))),
        ("user_limit", Json::Null),
    ]));
}

#[test]
fn private_and_unusual_channels_cannot_be_edited() {
    match edit_channel_fields(&ChannelSummary::Private) {
        Err(Error::Other(m)) => assert_eq!(m, "Can not edit private channels"),
        other => panic!("unexpected {:?}", other),
    }
    let c = ChannelSummary::Public {
        name: "x".into(),
        position: 0,
        kind: PublicChannelKind::Other,
        topic: None,
        bitrate: None,
        user_limit: None,
    };
    assert!(matches!(edit_channel_fields(&c), Err(Error::Other(_))));
}

#[test]
fn groups_and_others() {
    assert_eq!(edit_channel_fields(&ChannelSummary::Group { name: None }).unwrap(), members(vec![("name", Json::Null)]));
    assert_eq!(edit_channel_fields(&ChannelSummary::Category).unwrap(), members(vec![]));
    assert_eq!(edit_channel_fields(&ChannelSummary::News).unwrap(), members(vec![]));
    assert_eq!(edit_channel_fields(&ChannelSummary::Store).unwrap(), members(vec![]));
}

#[test]
fn profile_starts_from_username_and_avatar() {
    assert_eq!(profile_fields("me", None), members(vec![("username", Json::Str("me".into())), ("avatar", Json::Null)]));
    assert_eq!(
        user_profile_fields("me", Some("av"), Some("me@x"), false).unwrap(),
        members(vec![("username", Json::Str("me".into())), ("avatar", Json::Str("av".into())), ("email", Json::Str("me@x".into()))])
    );
    match user_profile_fields("bot", None, None, true) {
        Err(Error::Other(m)) => assert_eq!(m, "Cannot call edit_user_profile on a bot account"),
        other => panic!("unexpected {:?}", other),
    }
}

fn channel(v: Vec<(&str, Json)>) -> Json {
    Json::Object(members(v))
}

#[test]
fn channel_summary_of_a_text_channel() {
    let c = channel(vec![
        ("id", Json::Str("5".into())),
        ("type", Json::Number(JsonNumber::PosInt(0))),
        ("name", Json::Str("general".into())),
        ("position", Json::Number(JsonNumber::PosInt(3))),
        ("topic", Json::Str("talk".into())),
    ]);
    assert_eq!(
        channel_summary(&c),
        ChannelSummary::Public {
            name: "general".into(),
            position: 3,
            kind: PublicChannelKind::Text,
            topic: Some("talk".into()),
            bitrate: None,
            user_limit: None,
        }
    );
}

#[test]
fn channel_summary_of_a_voice_channel() {
    let c = channel(vec![
        ("type", Json::Number(JsonNumber::PosInt(2))),
        ("name", Json::Str("voice".into())),
        ("position", Json::Number(JsonNumber::NegInt(-1))),
        ("topic", Json::Null),
        ("bitrate", Json::Number(JsonNumber::PosInt(64000))),
        ("user_limit", Json::Number(JsonNumber::PosInt(0))),
    ]);
    assert_eq!(
        channel_summary(&c),
        ChannelSummary::Public {
            name: "voice".into(),
            position: -1,
            kind: PublicChannelKind::Voice,
            topic: None,
            bitrate: Some(64000),
            user_limit: Some(0),
        }
    );
}

#[test]
fn channel_summary_defaults_missing_fields() {
    let c = channel(vec![("type", Json::Number(JsonNumber::PosInt(9)))]);
    assert_eq!(
        channel_summary(&c),
        ChannelSummary::Public {
            name: String::new(),
            position: 0,
            kind: PublicChannelKind::Other,
            topic: None,
            bitrate: None,
            user_limit: None,
        }
    );
    let c = channel(vec![("name", Json::Str("x".into())), ("position", Json::Number(JsonNumber::PosInt(u64::MAX)))]);
    match channel_summary(&c) {
        ChannelSummary::Public { kind, position, .. } => {
            assert_eq!(kind, PublicChannelKind::Text);
            assert_eq!(position, 0);
        }
        other => panic!("unexpected {:?}", other),
    }
}

#[test]
fn channel_summary_of_the_other_types() {
    let t = |n: u64| channel(vec![("type", Json::Number(JsonNumber::PosInt(n))), ("name", Json::Str("g".into()))]);
    assert_eq!(channel_summary(&t(1)), ChannelSummary::Private);
    assert_eq!(channel_summary(&t(3)), ChannelSummary::Group { name: Some("g".into()) });
    assert_eq!(channel_summary(&channel(vec![("type", Json::Number(JsonNumber::PosInt(3)))])), ChannelSummary::Group { name: None });
    assert_eq!(channel_summary(&t(4)), ChannelSummary::Category);
    assert_eq!(channel_summary(&t(5)), ChannelSummary::News);
    assert_eq!(channel_summary(&t(6)), ChannelSummary::Store);
}

#[test]
fn private_channels_cannot_be_edited_after_reading() {
    let c = channel(vec![("type", Json::Number(JsonNumber::PosInt(1)))]);
    match edit_channel_fields(&channel_summary(&c)) {
        Err(Error::Other(m)) => assert_eq!(m, "Can not edit private channels"),
        other => panic!("unexpected {:?}", other),
    }
}
