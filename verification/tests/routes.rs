use discord::json::{Json, JsonNumber};
use discord::model::{
    ChannelId, MessageId, ServerId, UserId, RoleId, EmojiId, GetMessages, ReactionEmoji,
    PermissionOverwrite, PermissionOverwriteType,
};
use discord::request::Method;
use discord::routes;
use discord::error::Error;

const API: &str = "https://discord.com/api/v6";

fn s(t: &str) -> Json {
    Json::Str(t.to_string())
}

fn n(v: u64) -> Json {
    Json::Number(JsonNumber::PosInt(v))
}

fn obj(members: Vec<(&str, Json)>) -> Json {
    Json::Object(members.into_iter().map(|(k, v)| (k.to_string(), v)).collect())
}

#[test]
fn create_channel_posts_name_and_type() {
    let r = routes::create_channel(ServerId(81384788765712384), "general", 0);
    assert_eq!(r.method, Method::Post);
    assert_eq!(r.url, format!("{}/guilds/81384788765712384/channels", API));
    assert_eq!(r.body, Some(obj(vec![("name", s("general")), ("type", n(0))])));
}

#[test]
fn simple_gets() {
    let r = routes::get_channel(ChannelId(5));
    assert_eq!((r.method, r.url.as_str(), r.body), (Method::Get, "https://discord.com/api/v6/channels/5", None));
    assert_eq!(routes::get_server_members(ServerId(9)).url, format!("{}/guilds/9/members", API));
    assert_eq!(routes::get_servers().url, format!("{}/users/@me/guilds", API));
    assert_eq!(routes::get_current_user().url, format!("{}/users/@me", API));
    assert_eq!(routes::get_voice_regions().url, format!("{}/voice/regions", API));
    assert_eq!(routes::get_application_info().url, format!("{}/oauth2/applications/@me", API));
    assert_eq!(routes::get_gateway_url().url, format!("{}/gateway", API));
    assert_eq!(routes::suggested_shard_count().url, format!("{}/gateway/bot", API));
    assert_eq!(routes::get_member(ServerId(1), UserId(2)).url, format!("{}/guilds/1/members/2", API));
    assert_eq!(routes::get_bans(ServerId(3)).url, format!("{}/guilds/3/bans", API));
    assert_eq!(routes::get_roles(ServerId(3)).url, format!("{}/guilds/3/roles", API));
    assert_eq!(routes::get_user(UserId(12)).url, format!("{}/users/12", API));
    assert_eq!(routes::get_pinned_messages(ChannelId(4)).url, format!("{}/channels/4/pins", API));
    assert_eq!(routes::get_message(ChannelId(4), MessageId(8)).url, format!("{}/channels/4/messages/8", API));
    assert_eq!(routes::get_server(ServerId(6)).url, format!("{}/guilds/6", API));
    assert_eq!(routes::get_server_channels(ServerId(6)).url, format!("{}/guilds/6/channels", API));
    assert_eq!(routes::get_server_invites(ServerId(6)).url, format!("{}/guilds/6/invites", API));
    assert_eq!(routes::get_channel_invites(ChannelId(6)).url, format!("{}/channels/6/invites", API));
}

#[test]
fn get_messages_defaults_to_fifty() {
    let r = routes::get_messages(ChannelId(10), GetMessages::MostRecent, None);
    assert_eq!(r.url, format!("{}/channels/10/messages?limit=50", API));
    let r = routes::get_messages(ChannelId(10), GetMessages::Before(MessageId(99)), Some(5));
    assert_eq!(r.url, format!("{}/channels/10/messages?limit=5&before=99", API));
    let r = routes::get_messages(ChannelId(10), GetMessages::After(MessageId(7)), Some(100));
    assert_eq!(r.url, format!("{}/channels/10/messages?limit=100&after=7", API));
    let r = routes::get_messages(ChannelId(10), GetMessages::Around(MessageId(3)), None);
    assert_eq!(r.url, format!("{}/channels/10/messages?limit=50&around=3", API));
}

#[test]
fn methods_of_message_routes() {
    assert_eq!(routes::pin_message(ChannelId(1), MessageId(2)).method, Method::Put);
    assert_eq!(routes::unpin_message(ChannelId(1), MessageId(2)).method, Method::Delete);
    assert_eq!(routes::delete_message(ChannelId(1), MessageId(2)).method, Method::Delete);
    let r = routes::ack_message(ChannelId(1), MessageId(2));
    assert_eq!((r.method, r.url), (Method::Post, format!("{}/channels/1/messages/2/ack", API)));
    let r = routes::broadcast_typing(ChannelId(1));
    assert_eq!((r.method, r.url), (Method::Post, format!("{}/channels/1/typing", API)));
    let r = routes::send_message_ex(ChannelId(1), obj(vec![("content", s("hi"))]));
    assert_eq!(r.url, format!("{}/channels/1/messages", API));
    assert_eq!(r.body, Some(obj(vec![("content", s("hi"))])));
    let r = routes::edit_message_ex(ChannelId(1), MessageId(3), obj(vec![]));
    assert_eq!((r.method, r.url), (Method::Patch, format!("{}/channels/1/messages/3", API)));
}

#[test]
fn delete_messages_sends_each_id_once_in_order() {
    let ids = [MessageId(30), MessageId(10), MessageId(30), MessageId(20), MessageId(10)];
    let r = routes::delete_messages(ChannelId(7), &ids).unwrap();
    assert_eq!(r.method, Method::Post);
    assert_eq!(r.url, format!("{}/channels/7/messages/bulk_delete", API));
    assert_eq!(r.body, Some(obj(vec![("messages", Json::Array(vec![n(10), n(20), n(30)]))])));
}

#[test]
fn delete_messages_refuses_fewer_than_two_distinct() {
    let ids = [MessageId(5), MessageId(5), MessageId(5)];
    match routes::delete_messages(ChannelId(7), &ids) {
        Err(Error::Other(m)) => assert_eq!(m, "A minimum of 2 message ids must be supplied"),
        other => panic!("unexpected {:?}", other),
    }
    assert!(matches!(routes::delete_messages(ChannelId(7), &[]), Err(Error::Other(_))));
}

#[test]
fn delete_messages_refuses_more_than_a_hundred() {
    let ids: Vec<MessageId> = (0..101).map(MessageId).collect();
    match routes::delete_messages(ChannelId(7), &ids) {
        Err(Error::Other(m)) => assert_eq!(m, "A maximum of 100 message ids may be supplied"),
        other => panic!("unexpected {:?}", other),
    }
    let ids: Vec<MessageId> = (0..100).rev().chain(0..100).map(MessageId).collect();
    let r = routes::delete_messages(ChannelId(7), &ids).unwrap();
    match r.body {
        Some(Json::Object(m)) => match &m[0].1 {
            Json::Array(a) => {
                assert_eq!(a.len(), 100);
                assert_eq!(a[0], n(0));
                assert_eq!(a[99], n(99));
            }
            other => panic!("unexpected {:?}", other),
        },
        other => panic!("unexpected {:?}", other),
    }
}

#[test]
fn permissions_name_the_target() {
    let target = PermissionOverwrite { kind: PermissionOverwriteType::Member(UserId(44)), allow: 3, deny: 8 };
    let r = routes::create_permission(ChannelId(2), target);
    assert_eq!((r.method, r.url.as_str()), (Method::Put, "https://discord.com/api/v6/channels/2/permissions/44"));
    assert_eq!(r.body, Some(obj(vec![("id", n(44)), ("kind", s("member")), ("allow", n(3)), ("deny", n(8))])));
    let target = PermissionOverwrite { kind: PermissionOverwriteType::Role(RoleId(45)), allow: 0, deny: 1 };
    let r = routes::create_permission(ChannelId(2), target);
    assert_eq!(r.body, Some(obj(vec![("id", n(45)), ("kind", s("role")), ("allow", n(0)), ("deny", n(1))])));
    let r = routes::delete_permission(ChannelId(2), PermissionOverwriteType::Role(RoleId(45)));
    assert_eq!((r.method, r.url), (Method::Delete, format!("{}/channels/2/permissions/45", API)));
}

#[test]
fn reactions_format_the_emoji() {
    let custom = ReactionEmoji::Custom { name: "ThisIsFine".to_string(), id: EmojiId(1234) };
    let r = routes::add_reaction(ChannelId(1), MessageId(2), custom);
    assert_eq!((r.method, r.url), (Method::Put, format!("{}/channels/1/messages/2/reactions/ThisIsFine:1234/@me", API)));
    let r = routes::add_reaction(ChannelId(1), MessageId(2), ReactionEmoji::Unicode("👌".to_string()));
    assert_eq!(r.url, format!("{}/channels/1/messages/2/reactions/👌/@me", API));
    let r = routes::delete_reaction(ChannelId(1), MessageId(2), None, ReactionEmoji::Unicode("x".to_string()));
    assert_eq!((r.method, r.url), (Method::Delete, format!("{}/channels/1/messages/2/reactions/x/@me", API)));
    let r = routes::delete_reaction(ChannelId(1), MessageId(2), Some(UserId(9)), ReactionEmoji::Unicode("x".to_string()));
    assert_eq!(r.url, format!("{}/channels/1/messages/2/reactions/x/9", API));
}

#[test]
fn get_reactions_limit_defaults_to_fifty() {
    let r = routes::get_reactions(ChannelId(1), MessageId(2), ReactionEmoji::Unicode("x".to_string()), None, None);
    assert_eq!(r.url, format!("{}/channels/1/messages/2/reactions/x?limit=50", API));
    let r = routes::get_reactions(ChannelId(1), MessageId(2), ReactionEmoji::Unicode("x".to_string()), Some(-3), Some(UserId(77)));
    assert_eq!(r.url, format!("{}/channels/1/messages/2/reactions/x?limit=-3&after=77", API));
}

#[test]
fn server_routes() {
    let r = routes::create_server("My Server", "us-west", None);
    assert_eq!((r.method, r.url), (Method::Post, format!("{}/guilds", API)));
    assert_eq!(r.body, Some(obj(vec![("name", s("My Server")), ("region", s("us-west")), ("icon", Json::Null)])));
    let r = routes::create_server("a", "b", Some("data:x"));
    assert_eq!(r.body, Some(obj(vec![("name", s("a")), ("region", s("b")), ("icon", s("data:x"))])));
    assert_eq!(routes::edit_server(ServerId(3), obj(vec![])).method, Method::Patch);
    let r = routes::leave_server(ServerId(3));
    assert_eq!((r.method, r.url), (Method::Delete, format!("{}/users/@me/guilds/3", API)));
    let r = routes::delete_server(ServerId(3));
    assert_eq!((r.method, r.url), (Method::Delete, format!("{}/guilds/3", API)));
}

#[test]
fn emoji_routes() {
    let r = routes::create_emoji(ServerId(3), "smile", "data:image/png;base64,AA==");
    assert_eq!((r.method, r.url), (Method::Post, format!("{}/guilds/3/emojis", API)));
    assert_eq!(r.body, Some(obj(vec![("name", s("smile")), ("image", s("data:image/png;base64,AA=="))])));
    let r = routes::edit_emoji(ServerId(3), EmojiId(4), "grin");
    assert_eq!((r.method, r.url), (Method::Patch, format!("{}/guilds/3/emojis/4", API)));
    assert_eq!(r.body, Some(obj(vec![("name", s("grin"))])));
    let r = routes::delete_emoji(ServerId(3), EmojiId(4));
    assert_eq!((r.method, r.url), (Method::Delete, format!("{}/guilds/3/emojis/4", API)));
}

#[test]
fn ban_routes() {
    let r = routes::add_ban(ServerId(1), UserId(2), 7);
    assert_eq!((r.method, r.url), (Method::Put, format!("{}/guilds/1/bans/2?delete_message_days=7", API)));
    let r = routes::remove_ban(ServerId(1), UserId(2));
    assert_eq!((r.method, r.url), (Method::Delete, format!("{}/guilds/1/bans/2", API)));
}

#[test]
fn invite_routes_resolve_the_code() {
    assert_eq!(routes::get_invite("https://discord.gg/abc").url, format!("{}/invite/abc", API));
    let r = routes::accept_invite("discord.gg/abc");
    assert_eq!((r.method, r.url), (Method::Post, format!("{}/invite/abc", API)));
    let r = routes::delete_invite("abc");
    assert_eq!((r.method, r.url), (Method::Delete, format!("{}/invite/abc", API)));
    let r = routes::create_invite(ChannelId(5), 0, 10, true);
    assert_eq!((r.method, r.url), (Method::Post, format!("{}/channels/5/invites", API)));
    assert_eq!(r.body, Some(obj(vec![("validate", Json::Null), ("max_age", n(0)), ("max_uses", n(10)), ("temporary", Json::Bool(true))])));
}

#[test]
fn member_routes() {
    let r = routes::add_member_role(ServerId(1), UserId(2), RoleId(3));
    assert_eq!((r.method, r.url), (Method::Put, format!("{}/guilds/1/members/2/roles/3", API)));
    let r = routes::remove_member_role(ServerId(1), UserId(2), RoleId(3));
    assert_eq!((r.method, r.url), (Method::Delete, format!("{}/guilds/1/members/2/roles/3", API)));
    let r = routes::edit_member(ServerId(1), UserId(2), obj(vec![("mute", Json::Bool(true))]));
    assert_eq!((r.method, r.url), (Method::Patch, format!("{}/guilds/1/members/2", API)));
    let r = routes::edit_nickname(ServerId(1), "nick");
    assert_eq!((r.method, r.url), (Method::Patch, format!("{}/guilds/1/members/@me/nick", API)));
    assert_eq!(r.body, Some(obj(vec![("nick", s("nick"))])));
    let r = routes::kick_member(ServerId(1), UserId(2));
    assert_eq!((r.method, r.url), (Method::Delete, format!("{}/guilds/1/members/2", API)));
    let r = routes::move_member_voice(ServerId(1), UserId(2), ChannelId(3));
    assert_eq!((r.method, r.url), (Method::Patch, format!("{}/guilds/1/members/2", API)));
    assert_eq!(r.body, Some(obj(vec![("channel_id", n(3))])));
}

#[test]
fn role_routes() {
    let r = routes::create_role(ServerId(1), Some("mods"), None, Some(255), Some(true), None);
    assert_eq!((r.method, r.url), (Method::Post, format!("{}/guilds/1/roles", API)));
    assert_eq!(r.body, Some(obj(vec![
        ("name", s("mods")),
        ("permissions", Json::Null),
        ("color", n(255)),
        ("hoist", Json::Bool(true)),
        ("mentionable", Json::Null),
    ])));
    assert_eq!(routes::create_role_from_builder(ServerId(1), obj(vec![])).url, format!("{}/guilds/1/roles", API));
    let r = routes::edit_role(ServerId(1), RoleId(2), obj(vec![]));
    assert_eq!((r.method, r.url), (Method::Patch, format!("{}/guilds/1/roles/2", API)));
    let r = routes::reorder_roles(ServerId(1), &[(RoleId(5), 1), (RoleId(6), 0)]);
    assert_eq!((r.method, r.url), (Method::Patch, format!("{}/guilds/1/roles", API)));
    assert_eq!(r.body, Some(Json::Array(vec![
        obj(vec![("id", n(5)), ("position", n(1))]),
        obj(vec![("id", n(6)), ("position", n(0))]),
    ])));
    let r = routes::delete_role(ServerId(1), RoleId(2));
    assert_eq!((r.method, r.url), (Method::Delete, format!("{}/guilds/1/roles/2", API)));
}

#[test]
fn user_routes() {
    let r = routes::create_private_channel(UserId(8));
    assert_eq!((r.method, r.url), (Method::Post, format!("{}/users/@me/channels", API)));
    assert_eq!(r.body, Some(obj(vec![("recipient_id", n(8))])));
    assert_eq!(routes::create_dm(UserId(8)).body, Some(obj(vec![("recipient_id", n(8))])));
    assert_eq!(routes::get_user_avatar_url(UserId(8), "abc"), format!("{}/users/8/avatars/abc.jpg", API));
    assert_eq!(routes::get_user_avatar(UserId(8), "abc").url, format!("{}/users/8/avatars/abc.jpg", API));
    let r = routes::edit_profile(obj(vec![("username", s("me"))]));
    assert_eq!((r.method, r.url), (Method::Patch, format!("{}/users/@me", API)));
    let r = routes::edit_note(UserId(8), "friend");
    assert_eq!((r.method, r.url), (Method::Put, format!("{}/users/@me/notes/8", API)));
    assert_eq!(r.body, Some(obj(vec![("note", s("friend"))])));
}

#[test]
fn prune_routes() {
    let r = routes::begin_server_prune(ServerId(1), 30);
    assert_eq!((r.method, r.url), (Method::Post, format!("{}/guilds/1/prune", API)));
    assert_eq!(r.body, Some(obj(vec![("days", n(30))])));
    let r = routes::get_server_prune_count(ServerId(1), 7);
    assert_eq!((r.method, r.body), (Method::Get, Some(obj(vec![("days", n(7))]))));
}

#[test]
fn login_and_logout() {
    let r = routes::login("a@b.c", Some("pw"));
    assert_eq!((r.method, r.url), (Method::Post, format!("{}/auth/login", API)));
    assert_eq!(r.body, Some(obj(vec![("email", s("a@b.c")), ("password", s("pw"))])));
    assert_eq!(routes::login("a@b.c", None).body, Some(obj(vec![("email", s("a@b.c"))])));
    let r = routes::logout();
    assert_eq!(r.url, format!("{}/auth/logout", API));
    assert_eq!(r.body, Some(obj(vec![("provider", Json::Null), ("token", Json::Null)])));
}

#[test]
fn channel_routes() {
    let r = routes::edit_channel(ChannelId(3), obj(vec![]));
    assert_eq!((r.method, r.url), (Method::Patch, format!("{}/channels/3", API)));
    let r = routes::delete_channel(ChannelId(3));
    assert_eq!((r.method, r.url), (Method::Delete, format!("{}/channels/3", API)));
}

#[test]
fn status_page_routes() {
    assert_eq!(routes::get_unresolved_incidents().url, "https://status.discord.com/api/v2/incidents/unresolved.json");
    assert_eq!(routes::get_active_maintenances().url, "https://status.discord.com/api/v2/scheduled-maintenances/active.json");
    assert_eq!(routes::get_upcoming_maintenances().url, "https://status.discord.com/api/v2/scheduled-maintenances/upcoming.json");
}
