//! The current state that an edit starts from, so that the fields a caller
//! does not change are sent as they are.
use vstd::prelude::*;
use crate::json::{Json, JsonModel, JsonNumber, NumberModel};
use crate::model::{ChannelSummary, PublicChannelKind};
use crate::error::Error;
use crate::request::{text, unsigned, json_text, json_optional_text, lemma_members_model};
use crate::response::{members, member_value, opt_json, get_member};

verus! {

/// An integer as a JSON number.
pub open spec fn signed_number(i: i64) -> JsonModel {
    if i < 0 {
        JsonModel::Number(NumberModel::NegInt(i))
    } else {
        JsonModel::Number(NumberModel::PosInt(i as u64))
    }
}

fn json_signed(i: i64) -> (j: Json)
    ensures
        j@ == signed_number(i),
{
    if i < 0 {
        Json::Number(JsonNumber::NegInt(i))
    } else {
        Json::Number(JsonNumber::PosInt(i as u64))
    }
}

/// A string that may be missing, as JSON.
pub open spec fn maybe_text(o: Option<String>) -> JsonModel {
    match o {
        Some(t) => text(t@),
        None => JsonModel::Null,
    }
}

/// A number that may be missing, as JSON.
pub open spec fn maybe_unsigned(o: Option<u64>) -> JsonModel {
    match o {
        Some(n) => unsigned(n),
        None => JsonModel::Null,
    }
}

fn json_maybe_text(o: &Option<String>) -> (j: Json)
    ensures
        j@ == maybe_text(*o),
{
    match o {
        Some(t) => Json::Str(t.clone()),
        None => Json::Null,
    }
}

fn json_maybe_unsigned(o: Option<u64>) -> (j: Json)
    ensures
        j@ == maybe_unsigned(o),
{
    match o {
        Some(n) => Json::Number(JsonNumber::PosInt(n)),
        None => Json::Null,
    }
}

/// The fields of a channel that an edit must send (the endpoint requires all
/// of them): a private channel cannot be edited; a public one sends its name
/// and position, and its topic if it is a text channel or its bitrate and user
/// limit if it is a voice channel (other public kinds cannot be edited); a
/// group sends its name; the other kinds send nothing.
pub open spec fn channel_fields(c: ChannelSummary) -> Option<Seq<(Seq<char>, JsonModel)>> {
    match c {
        ChannelSummary::Private => None,
        ChannelSummary::Public { name, position, kind, topic, bitrate, user_limit } => match kind {
            PublicChannelKind::Text => Some(
                seq![
                    ("name"@, text(name@)),
                    ("position"@, signed_number(position)),
                    ("topic"@, maybe_text(topic)),
                ],
            ),
            PublicChannelKind::Voice => Some(
                seq![
                    ("name"@, text(name@)),
                    ("position"@, signed_number(position)),
                    ("bitrate"@, maybe_unsigned(bitrate)),
                    ("user_limit"@, maybe_unsigned(user_limit)),
                ],
            ),
            PublicChannelKind::Other => None,
        },
        ChannelSummary::Group { name } => Some(seq![("name"@, maybe_text(name))]),
        _ => Some(Seq::empty()),
    }
}

/// A number that is a non-negative integer, as `Value::as_u64` reads it.
pub open spec fn as_u64(o: Option<JsonModel>) -> Option<u64> {
    match o {
        Some(JsonModel::Number(NumberModel::PosInt(n))) => Some(n),
        _ => None,
    }
}

/// A number that is an integer in the range of `i64`, as `Value::as_i64`
/// reads it.
pub open spec fn as_i64(o: Option<JsonModel>) -> Option<i64> {
    match o {
        Some(JsonModel::Number(NumberModel::PosInt(n))) => if n <= i64::MAX {
            Some(n as i64)
        } else {
            None
        },
        Some(JsonModel::Number(NumberModel::NegInt(i))) => Some(i),
        _ => None,
    }
}

/// A string value, as `Value::as_str` reads it.
pub open spec fn as_text(o: Option<JsonModel>) -> Option<Seq<char>> {
    match o {
        Some(JsonModel::Str(s)) => Some(s),
        _ => None,
    }
}

/// An owned string that may be missing, by its characters.
pub open spec fn opt_string(o: Option<String>) -> Option<Seq<char>> {
    match o {
        Some(s) => Some(s@),
        None => None,
    }
}

/// The channel type number of a channel object; 0 (a text channel) when it
/// is missing.
pub open spec fn channel_type(j: JsonModel) -> u64 {
    match as_u64(member_value(j, "type"@)) {
        Some(n) => n,
        None => 0,
    }
}

/// `c` is what editing reads of the channel object `j`. Type 1 is a private
/// channel, 3 a group (with its name if it has one), 4 a category, 5 a news
/// channel, 6 a store channel; any other type is a public channel: 0 text,
/// 2 voice, the rest of another kind. A public channel has its name (empty
/// if missing), its position (0 if missing), its topic, bitrate and user
/// limit as far as the object holds them.
pub open spec fn summarizes(c: ChannelSummary, j: JsonModel) -> bool {
    let t = channel_type(j);
    let name = as_text(member_value(j, "name"@));
    if t == 1 {
        c is Private
    } else if t == 3 {
        c matches ChannelSummary::Group { name: n } && opt_string(n) == name
    } else if t == 4 {
        c is Category
    } else if t == 5 {
        c is News
    } else if t == 6 {
        c is Store
    } else {
        &&& c matches ChannelSummary::Public { name: n, position, kind, topic, bitrate, user_limit }
        &&& n@ == match name {
            Some(s) => s,
            None => Seq::<char>::empty(),
        }
        &&& position == match as_i64(member_value(j, "position"@)) {
            Some(p) => p,
            None => 0i64,
        }
        &&& kind == if t == 0 {
            PublicChannelKind::Text
        } else if t == 2 {
            PublicChannelKind::Voice
        } else {
            PublicChannelKind::Other
        }
        &&& opt_string(topic) == as_text(member_value(j, "topic"@))
        &&& bitrate == as_u64(member_value(j, "bitrate"@))
        &&& user_limit == as_u64(member_value(j, "user_limit"@))
    }
}

fn read_u64(o: Option<&Json>) -> (r: Option<u64>)
    ensures
        r == as_u64(opt_json(o)),
{
    match o {
        Some(Json::Number(JsonNumber::PosInt(n))) => Some(*n),
        _ => None,
    }
}

fn read_i64(o: Option<&Json>) -> (r: Option<i64>)
    ensures
        r == as_i64(opt_json(o)),
{
    match o {
        Some(Json::Number(JsonNumber::PosInt(n))) => if *n <= 9223372036854775807u64 {
            Some(*n as i64)
        } else {
            None
        },
        Some(Json::Number(JsonNumber::NegInt(i))) => Some(*i),
        _ => None,
    }
}

fn read_text(o: Option<&Json>) -> (r: Option<String>)
    ensures
        opt_string(r) == as_text(opt_json(o)),
{
    match o {
        Some(Json::Str(s)) => Some(s.clone()),
        _ => None,
    }
}

/// What editing reads of a channel object.
pub fn channel_summary(channel: &Json) -> (c: ChannelSummary)
    ensures
        summarizes(c, channel@),
{
    let t = match read_u64(get_member(channel, "type")) {
        Some(n) => n,
        None => 0,
    };
    let name = read_text(get_member(channel, "name"));
    if t == 1 {
        ChannelSummary::Private
    } else if t == 3 {
        ChannelSummary::Group { name }
    } else if t == 4 {
        ChannelSummary::Category
    } else if t == 5 {
        ChannelSummary::News
    } else if t == 6 {
        ChannelSummary::Store
    } else {
        let kind = if t == 0 {
            PublicChannelKind::Text
        } else if t == 2 {
            PublicChannelKind::Voice
        } else {
            PublicChannelKind::Other
        };
        ChannelSummary::Public {
            name: match name {
                Some(s) => s,
                None => String::new(),
            },
            position: match read_i64(get_member(channel, "position")) {
                Some(p) => p,
                None => 0,
            },
            kind,
            topic: read_text(get_member(channel, "topic")),
            bitrate: read_u64(get_member(channel, "bitrate")),
            user_limit: read_u64(get_member(channel, "user_limit")),
        }
    }
}

/// An edit sends the channel's current editable fields as they are, so that
/// the ones the caller leaves alone are kept: a text channel its name,
/// position and topic; a voice channel its name, position, bitrate and user
/// limit (a number that is known is sent as that number, an unknown one as
/// `null`); a group its name.
pub proof fn lemma_edits_keep_current_fields(
    name: String,
    position: i64,
    topic: Option<String>,
    bitrate: Option<u64>,
    user_limit: Option<u64>,
    group_name: Option<String>,
)
    ensures
        ({
            let pos = if position < 0 {
                JsonModel::Number(NumberModel::NegInt(position))
            } else {
                JsonModel::Number(NumberModel::PosInt(position as u64))
            };
            let num = |o: Option<u64>|
                match o {
                    Some(n) => JsonModel::Number(NumberModel::PosInt(n)),
                    None => JsonModel::Null,
                };
            let txt = |o: Option<String>|
                match o {
                    Some(t) => JsonModel::Str(t@),
                    None => JsonModel::Null,
                };
            &&& channel_fields(
                ChannelSummary::Public {
                    name,
                    position,
                    kind: PublicChannelKind::Voice,
                    topic,
                    bitrate,
                    user_limit,
                },
            ) == Some(
                seq![
                    ("name"@, JsonModel::Str(name@)),
                    ("position"@, pos),
                    ("bitrate"@, num(bitrate)),
                    ("user_limit"@, num(user_limit)),
                ],
            )
            &&& channel_fields(
                ChannelSummary::Public {
                    name,
                    position,
                    kind: PublicChannelKind::Text,
                    topic,
                    bitrate,
                    user_limit,
                },
            ) == Some(
                seq![
                    ("name"@, JsonModel::Str(name@)),
                    ("position"@, pos),
                    ("topic"@, txt(topic)),
                ],
            )
            &&& channel_fields(ChannelSummary::Group { name: group_name }) == Some(
                seq![("name"@, txt(group_name))],
            )
        }),
{
}

/// A position is sent as the same integer, negative or not.
pub proof fn lemma_position_is_the_same_integer(position: i64)
    ensures
        match signed_number(position) {
            JsonModel::Number(NumberModel::PosInt(n)) => n == position,
            JsonModel::Number(NumberModel::NegInt(i)) => i == position,
            _ => false,
        },
{
}

/// Whether the channel is one that cannot be edited because it is private.
pub open spec fn is_private(c: ChannelSummary) -> bool {
    c matches ChannelSummary::Private
}

fn member(key: &str, value: Json) -> (m: (String, Json))
    ensures
        m.0@ == key@,
        m.1 == value,
{
    (key.to_owned(), value)
}

/// The fields that editing a channel starts from.
pub fn edit_channel_fields(current: &ChannelSummary) -> (r: Result<Vec<(String, Json)>, Error>)
    ensures
        match channel_fields(*current) {
            Some(fs) => r matches Ok(v) && members(v@) == fs,
            None => if is_private(*current) {
                r matches Err(Error::Other(m)) && m@ == "Can not edit private channels"@
            } else {
                r matches Err(Error::Other(m)) && m@
                    == "format!(\"Unreachable channel type: {:?}\", channel.kind)"@
            },
        },
{
    let mut v: Vec<(String, Json)> = Vec::new();
    match current {
        ChannelSummary::Private => {
            return Err(Error::Other("Can not edit private channels"));
        },
        ChannelSummary::Public { name, position, kind, topic, bitrate, user_limit } => {
            match kind {
                PublicChannelKind::Text => {
                    v.push(member("name", Json::Str(name.clone())));
                    v.push(member("position", json_signed(*position)));
                    v.push(member("topic", json_maybe_text(topic)));
                },
                PublicChannelKind::Voice => {
                    v.push(member("name", Json::Str(name.clone())));
                    v.push(member("position", json_signed(*position)));
                    v.push(member("bitrate", json_maybe_unsigned(*bitrate)));
                    v.push(member("user_limit", json_maybe_unsigned(*user_limit)));
                },
                PublicChannelKind::Other => {
                    return Err(
                        Error::Other("format!(\"Unreachable channel type: {:?}\", channel.kind)"),
                    );
                },
            }
        },
        ChannelSummary::Group { name } => {
            v.push(member("name", json_maybe_text(name)));
        },
        _ => {},
    }
    proof {
        lemma_members_model(v@);
        let fs = channel_fields(*current);
        assert(fs is Some);
        assert(members(v@) =~= fs->0);
    }
    Ok(v)
}

/// The fields that editing a profile starts from: the current username and
/// avatar, so that giving them is optional.
pub fn profile_fields(username: &str, avatar: Option<&str>) -> (v: Vec<(String, Json)>)
    ensures
        members(v@) == seq![
            ("username"@, text(username@)),
            ("avatar"@, match avatar {
                Some(a) => text(a@),
                None => JsonModel::Null,
            }),
        ],
{
    let mut v: Vec<(String, Json)> = Vec::new();
    v.push(member("username", json_text(username)));
    v.push(member("avatar", json_optional_text(avatar)));
    proof {
        lemma_members_model(v@);
    }
    assert(members(v@) =~= seq![
        ("username"@, text(username@)),
        ("avatar"@, match avatar {
            Some(a) => text(a@),
            None => JsonModel::Null,
        }),
    ]);
    v
}

/// The fields that editing a user (non-bot) account's profile starts from:
/// the current username and avatar, and the email when there is one. A bot
/// account cannot use this edit.
pub fn user_profile_fields(username: &str, avatar: Option<&str>, email: Option<&str>, bot: bool) -> (r: Result<Vec<(String, Json)>, Error>)
    ensures
        bot ==> (r matches Err(Error::Other(m)) && m@ == "Cannot call edit_user_profile on a bot account"@),
        !bot ==> (r matches Ok(v) && members(v@) == seq![
            ("username"@, text(username@)),
            ("avatar"@, match avatar {
                Some(a) => text(a@),
                None => JsonModel::Null,
            }),
        ] + match email {
            Some(e) => seq![("email"@, text(e@))],
            None => Seq::empty(),
        }),
{
    if bot {
        return Err(Error::Other("Cannot call edit_user_profile on a bot account"));
    }
    let mut v = profile_fields(username, avatar);
    let ghost before = v@;
    match email {
        Some(e) => {
            v.push(member("email", json_text(e)));
        },
        None => {},
    }
    proof {
        lemma_members_model(v@);
        lemma_members_model(before);
    }
    assert(members(v@) =~= members(before) + match email {
        Some(e) => seq![("email"@, text(e@))],
        None => Seq::empty(),
    });
    Ok(v)
}

} // verus!
