//! The REST endpoints: for each operation, the request that carries it.
use vstd::prelude::*;
use crate::json::{Json, JsonModel, JsonNumber, NumberModel};
use crate::model::{
    ChannelId, MessageId, ServerId, UserId, RoleId, EmojiId, GetMessages, ReactionEmoji,
    PermissionOverwrite, PermissionOverwriteType,
};
use crate::request::{
    ApiRequest, RequestModel, Method, api, bare, with_body, text, unsigned, object, push_text, api_base,
    json_text, json_unsigned, json_optional_text, json_array, object1, object2, object3, object4,
    object5,
};
use crate::text::{decimal, signed_decimal, push_decimal, push_signed_decimal, push_char};
use crate::auth::{resolve_invite, invite_code};
use crate::bulk::{ascending_unique, in_order_once, message_numbers};
use crate::error::Error;

verus! {

/// How an identifier appears in a URL: its decimal number.
pub open spec fn id(n: u64) -> Seq<char> {
    decimal(n as nat)
}

/// A string member that may be missing: the string, or `null`.
pub open spec fn optional_text(o: Option<&str>) -> JsonModel {
    match o {
        Some(t) => text(t@),
        None => JsonModel::Null,
    }
}

/// A number member that may be missing: the number, or `null`.
pub open spec fn optional_unsigned(o: Option<u64>) -> JsonModel {
    match o {
        Some(n) => unsigned(n),
        None => JsonModel::Null,
    }
}

/// A boolean member that may be missing: the boolean, or `null`.
pub open spec fn optional_bool(o: Option<bool>) -> JsonModel {
    match o {
        Some(b) => JsonModel::Bool(b),
        None => JsonModel::Null,
    }
}

/// A value that is given is sent as it is, whatever it is (a zero or an empty
/// string too); only a value that is not given is sent as `null`.
pub proof fn lemma_given_values_are_sent_as_given(n: u64, t: &str, b: bool)
    ensures
        optional_unsigned(Some(n)) == JsonModel::Number(NumberModel::PosInt(n)),
        optional_unsigned(None) == JsonModel::Null,
        optional_text(Some(t)) == JsonModel::Str(t@),
        optional_text(None) == JsonModel::Null,
        optional_bool(Some(b)) == JsonModel::Bool(b),
        optional_bool(None) == JsonModel::Null,
{
}

fn json_optional_unsigned(o: Option<u64>) -> (j: Json)
    ensures
        j@ == optional_unsigned(o),
{
    match o {
        Some(n) => Json::Number(JsonNumber::PosInt(n)),
        None => Json::Null,
    }
}

fn json_optional_bool(o: Option<bool>) -> (j: Json)
    ensures
        j@ == optional_bool(o),
{
    match o {
        Some(b) => Json::Bool(b),
        None => Json::Null,
    }
}

/// `api + p0 + a`.
fn at(p0: &str, a: u64) -> (u: String)
    ensures
        u@ == api() + p0@ + id(a),
{
    let mut u = api_base();
    push_text(&mut u, p0);
    push_decimal(&mut u, a);
    u
}

/// `api + p0 + a + p1 + b`.
fn at2(p0: &str, a: u64, p1: &str, b: u64) -> (u: String)
    ensures
        u@ == api() + p0@ + id(a) + p1@ + id(b),
{
    let mut u = at(p0, a);
    push_text(&mut u, p1);
    push_decimal(&mut u, b);
    u
}

/// `api + p0 + a + p1 + b + p2 + c`.
fn at3(p0: &str, a: u64, p1: &str, b: u64, p2: &str, c: u64) -> (u: String)
    ensures
        u@ == api() + p0@ + id(a) + p1@ + id(b) + p2@ + id(c),
{
    let mut u = at2(p0, a, p1, b);
    push_text(&mut u, p2);
    push_decimal(&mut u, c);
    u
}

/// `u + p`.
fn ending(u: String, p: &str) -> (r: String)
    ensures
        r@ == u@ + p@,
{
    let mut r = u;
    push_text(&mut r, p);
    r
}

/// `api + p`.
fn url(p: &str) -> (u: String)
    ensures
        u@ == api() + p@,
{
    let mut u = api_base();
    push_text(&mut u, p);
    u
}

fn get(u: String) -> (r: ApiRequest)
    ensures
        r@ == bare(Method::Get, u@),
{
    ApiRequest { method: Method::Get, url: u, body: None }
}

fn bodiless(method: Method, u: String) -> (r: ApiRequest)
    ensures
        r@ == bare(method, u@),
{
    ApiRequest { method, url: u, body: None }
}

fn carrying(method: Method, u: String, body: Json) -> (r: ApiRequest)
    ensures
        r@ == with_body(method, u@, body@),
{
    ApiRequest { method, url: u, body: Some(body) }
}

/// An optional string slice by its characters.
pub open spec fn opt_str(o: Option<&str>) -> Option<Seq<char>> {
    match o {
        Some(t) => Some(t@),
        None => None,
    }
}

/// The login request: the email and, when given, the password.
pub open spec fn login_model(email: Seq<char>, password: Option<Seq<char>>) -> RequestModel {
    with_body(
        Method::Post,
        api() + "/auth/login"@,
        match password {
            Some(p) => object(seq![("email"@, text(email)), ("password"@, text(p))]),
            None => object(seq![("email"@, text(email))]),
        },
    )
}

/// Log in with an email and, when given, a password.
pub fn login(email: &str, password: Option<&str>) -> (r: ApiRequest)
    ensures
        r@ == login_model(email@, opt_str(password)),
{
    let body = match password {
        Some(p) => object2("email", json_text(email), "password", json_text(p)),
        None => object1("email", json_text(email)),
    };
    carrying(Method::Post, url("/auth/login"), body)
}

/// A login request and the token, if any, to present with it as the
/// `Authorization` header.
pub struct LoginRequest {
    pub request: ApiRequest,
    pub authorization: Option<String>,
}

/// A login request with its `Authorization` token, as a model.
pub open spec fn login_request_model(l: LoginRequest) -> (RequestModel, Option<Seq<char>>) {
    (
        l.request@,
        match l.authorization {
            Some(t) => Some(t@),
            None => None,
        },
    )
}

/// A login with an email and password alone: no token is presented.
pub open spec fn password_login_model(email: Seq<char>, password: Seq<char>) -> (RequestModel, Option<Seq<char>>) {
    (login_model(email, Some(password)), None)
}

/// Log in with an email and a password.
pub fn password_login(email: &str, password: &str) -> (l: LoginRequest)
    ensures
        login_request_model(l) == password_login_model(email@, password@),
{
    LoginRequest { request: login(email, Some(password)), authorization: None }
}

/// Log out, invalidating the token.
pub fn logout() -> (r: ApiRequest)
    ensures
        r@ == with_body(
            Method::Post,
            api() + "/auth/logout"@,
            object(seq![("provider"@, JsonModel::Null), ("token"@, JsonModel::Null)]),
        ),
{
    carrying(Method::Post, url("/auth/logout"), object2("provider", Json::Null, "token", Json::Null))
}

/// Create a channel of the given type number (`0` text, `2` voice, ...).
pub fn create_channel(server: ServerId, name: &str, kind: u64) -> (r: ApiRequest)
    ensures
        r@ == with_body(
            Method::Post,
            api() + "/guilds/"@ + id(server.0) + "/channels"@,
            object(seq![("name"@, text(name@)), ("type"@, unsigned(kind))]),
        ),
{
    carrying(
        Method::Post,
        ending(at("/guilds/", server.0), "/channels"),
        object2("name", json_text(name), "type", json_unsigned(kind)),
    )
}

/// Get the list of channels in a server.
pub fn get_server_channels(server: ServerId) -> (r: ApiRequest)
    ensures
        r@ == bare(Method::Get, api() + "/guilds/"@ + id(server.0) + "/channels"@),
{
    get(ending(at("/guilds/", server.0), "/channels"))
}

/// Get information about a channel.
pub fn get_channel(channel: ChannelId) -> (r: ApiRequest)
    ensures
        r@ == bare(Method::Get, api() + "/channels/"@ + id(channel.0)),
{
    get(at("/channels/", channel.0))
}

/// Edit a channel's details; `body` holds every editable field.
pub fn edit_channel(channel: ChannelId, body: Json) -> (r: ApiRequest)
    ensures
        r@ == with_body(Method::Patch, api() + "/channels/"@ + id(channel.0), body@),
{
    carrying(Method::Patch, at("/channels/", channel.0), body)
}

/// Delete a channel.
pub fn delete_channel(channel: ChannelId) -> (r: ApiRequest)
    ensures
        r@ == bare(Method::Delete, api() + "/channels/"@ + id(channel.0)),
{
    bodiless(Method::Delete, at("/channels/", channel.0))
}

/// Indicate typing on a channel for the next 5 seconds.
pub fn broadcast_typing(channel: ChannelId) -> (r: ApiRequest)
    ensures
        r@ == bare(Method::Post, api() + "/channels/"@ + id(channel.0) + "/typing"@),
{
    bodiless(Method::Post, ending(at("/channels/", channel.0), "/typing"))
}

/// Get a single message by ID from a given channel.
pub fn get_message(channel: ChannelId, message: MessageId) -> (r: ApiRequest)
    ensures
        r@ == bare(
            Method::Get,
            api() + "/channels/"@ + id(channel.0) + "/messages/"@ + id(message.0),
        ),
{
    get(at2("/channels/", channel.0, "/messages/", message.0))
}

/// The query that selects which messages `get_messages` retrieves.
pub open spec fn messages_query(what: GetMessages) -> Seq<char> {
    match what {
        GetMessages::MostRecent => Seq::empty(),
        GetMessages::Before(m) => "&before="@ + id(m.0),
        GetMessages::After(m) => "&after="@ + id(m.0),
        GetMessages::Around(m) => "&around="@ + id(m.0),
    }
}

/// Get messages in the backlog for a given channel; the limit defaults to 50.
pub fn get_messages(channel: ChannelId, what: GetMessages, limit: Option<u64>) -> (r: ApiRequest)
    ensures
        r@ == bare(
            Method::Get,
            api() + "/channels/"@ + id(channel.0) + "/messages?limit="@ + id(
                match limit {
                    Some(l) => l,
                    None => 50,
                },
            ) + messages_query(what),
        ),
{
    let n = match limit {
        Some(l) => l,
        None => 50,
    };
    let mut u = at2("/channels/", channel.0, "/messages?limit=", n);
    let ghost base = u@;
    match what {
        GetMessages::MostRecent => {
            assert(u@ =~= base + messages_query(what));
        },
        GetMessages::Before(m) => {
            push_text(&mut u, "&before=");
            push_decimal(&mut u, m.0);
            assert(u@ =~= base + messages_query(what));
        },
        GetMessages::After(m) => {
            push_text(&mut u, "&after=");
            push_decimal(&mut u, m.0);
            assert(u@ =~= base + messages_query(what));
        },
        GetMessages::Around(m) => {
            push_text(&mut u, "&around=");
            push_decimal(&mut u, m.0);
            assert(u@ =~= base + messages_query(what));
        },
    }
    get(u)
}

/// Get the pinned messages of a channel.
pub fn get_pinned_messages(channel: ChannelId) -> (r: ApiRequest)
    ensures
        r@ == bare(Method::Get, api() + "/channels/"@ + id(channel.0) + "/pins"@),
{
    get(ending(at("/channels/", channel.0), "/pins"))
}

/// Pin a message to its channel.
pub fn pin_message(channel: ChannelId, message: MessageId) -> (r: ApiRequest)
    ensures
        r@ == bare(
            Method::Put,
            api() + "/channels/"@ + id(channel.0) + "/pins/"@ + id(message.0),
        ),
{
    bodiless(Method::Put, at2("/channels/", channel.0, "/pins/", message.0))
}

/// Unpin a message from its channel.
pub fn unpin_message(channel: ChannelId, message: MessageId) -> (r: ApiRequest)
    ensures
        r@ == bare(
            Method::Delete,
            api() + "/channels/"@ + id(channel.0) + "/pins/"@ + id(message.0),
        ),
{
    bodiless(Method::Delete, at2("/channels/", channel.0, "/pins/", message.0))
}

/// Send a message whose fields are in `body`.
pub fn send_message_ex(channel: ChannelId, body: Json) -> (r: ApiRequest)
    ensures
        r@ == with_body(Method::Post, api() + "/channels/"@ + id(channel.0) + "/messages"@, body@),
{
    carrying(Method::Post, ending(at("/channels/", channel.0), "/messages"), body)
}

/// Edit a message with the fields in `body`.
pub fn edit_message_ex(channel: ChannelId, message: MessageId, body: Json) -> (r: ApiRequest)
    ensures
        r@ == with_body(
            Method::Patch,
            api() + "/channels/"@ + id(channel.0) + "/messages/"@ + id(message.0),
            body@,
        ),
{
    carrying(Method::Patch, at2("/channels/", channel.0, "/messages/", message.0), body)
}

/// Delete a message.
pub fn delete_message(channel: ChannelId, message: MessageId) -> (r: ApiRequest)
    ensures
        r@ == bare(
            Method::Delete,
            api() + "/channels/"@ + id(channel.0) + "/messages/"@ + id(message.0),
        ),
{
    bodiless(Method::Delete, at2("/channels/", channel.0, "/messages/", message.0))
}

/// Bulk delete messages: each id is sent once, in ascending order; at least
/// 2 and at most 100 distinct ids must be given.
pub fn delete_messages(channel: ChannelId, messages: &[MessageId]) -> (r: Result<ApiRequest, Error>)
    ensures
        ({
            let n = message_numbers(messages@).to_set().len();
            &&& n < 2 ==> (r matches Err(Error::Other(m)) && m@
                == "A minimum of 2 message ids must be supplied"@)
            &&& n > 100 ==> (r matches Err(Error::Other(m)) && m@
                == "A maximum of 100 message ids may be supplied"@)
            &&& 2 <= n <= 100 ==> (r matches Ok(req) && exists|t: Seq<u64>|
                in_order_once(t, message_numbers(messages@)) && req@ == with_body(
                    Method::Post,
                    api() + "/channels/"@ + id(channel.0) + "/messages/bulk_delete"@,
                    object(
                        seq![("messages"@, JsonModel::Array(t.map_values(|x: u64| unsigned(x))))],
                    ),
                ))
        }),
{
    let ids = ascending_unique(messages);
    proof {
        crate::bulk::lemma_ascending_unique_count(ids@, message_numbers(messages@));
    }
    if ids.len() < 2 {
        return Err(Error::Other("A minimum of 2 message ids must be supplied"));
    } else if ids.len() > 100 {
        return Err(Error::Other("A maximum of 100 message ids may be supplied"));
    }
    let mut elements: Vec<Json> = Vec::new();
    for i in 0..ids.len()
        invariant
            elements@.len() == i,
            forall|k: int| 0 <= k < i ==> #[trigger] elements@[k]@ == unsigned(ids@[k]),
    {
        elements.push(json_unsigned(ids[i]));
    }
    let array = json_array(elements);
    assert(Seq::new(elements@.len(), |k: int| elements@[k]@) =~= ids@.map_values(
        |x: u64| unsigned(x),
    ));
    let body = object1("messages", array);
    Ok(carrying(Method::Post, ending(at("/channels/", channel.0), "/messages/bulk_delete"), body))
}

/// Acknowledge a message as read.
pub fn ack_message(channel: ChannelId, message: MessageId) -> (r: ApiRequest)
    ensures
        r@ == bare(
            Method::Post,
            api() + "/channels/"@ + id(channel.0) + "/messages/"@ + id(message.0) + "/ack"@,
        ),
{
    bodiless(Method::Post, ending(at2("/channels/", channel.0, "/messages/", message.0), "/ack"))
}

/// The id that a permission overwrite targets.
pub open spec fn overwrite_target(kind: PermissionOverwriteType) -> u64 {
    match kind {
        PermissionOverwriteType::Member(u) => u.0,
        PermissionOverwriteType::Role(r) => r.0,
    }
}

/// The kind of target of a permission overwrite, by name.
pub open spec fn overwrite_kind(kind: PermissionOverwriteType) -> Seq<char> {
    match kind {
        PermissionOverwriteType::Member(_) => "member"@,
        PermissionOverwriteType::Role(_) => "role"@,
    }
}

/// Create permissions for a channel for a member or a role.
pub fn create_permission(channel: ChannelId, target: PermissionOverwrite) -> (r: ApiRequest)
    ensures
        r@ == with_body(
            Method::Put,
            api() + "/channels/"@ + id(channel.0) + "/permissions/"@ + id(
                overwrite_target(target.kind),
            ),
            object(
                seq![
                    ("id"@, unsigned(overwrite_target(target.kind))),
                    ("kind"@, text(overwrite_kind(target.kind))),
                    ("allow"@, unsigned(target.allow)),
                    ("deny"@, unsigned(target.deny)),
                ],
            ),
        ),
{
    let (target_id, kind) = match target.kind {
        PermissionOverwriteType::Member(u) => (u.0, "member"),
        PermissionOverwriteType::Role(r) => (r.0, "role"),
    };
    let body = object4(
        "id",
        json_unsigned(target_id),
        "kind",
        json_text(kind),
        "allow",
        json_unsigned(target.allow),
        "deny",
        json_unsigned(target.deny),
    );
    carrying(Method::Put, at2("/channels/", channel.0, "/permissions/", target_id), body)
}

/// Delete a member's or a role's permissions for a channel.
pub fn delete_permission(channel: ChannelId, permission_type: PermissionOverwriteType) -> (r: ApiRequest)
    ensures
        r@ == bare(
            Method::Delete,
            api() + "/channels/"@ + id(channel.0) + "/permissions/"@ + id(
                overwrite_target(permission_type),
            ),
        ),
{
    let target_id = match permission_type {
        PermissionOverwriteType::Member(u) => u.0,
        PermissionOverwriteType::Role(r) => r.0,
    };
    bodiless(Method::Delete, at2("/channels/", channel.0, "/permissions/", target_id))
}

/// How an emoji appears in a URL: `name:id` for a custom emoji, the
/// character itself for a unicode one.
pub open spec fn emoji_text(emoji: ReactionEmoji) -> Seq<char> {
    match emoji {
        ReactionEmoji::Custom { name, id: e } => name@ + ":"@ + id(e.0),
        ReactionEmoji::Unicode(name) => name@,
    }
}

fn push_emoji(u: &mut String, emoji: &ReactionEmoji)
    ensures
        final(u)@ == old(u)@ + emoji_text(*emoji),
{
    match emoji {
        ReactionEmoji::Custom { name, id } => {
            push_text(u, name.as_str());
            push_char(u, ':');
            push_decimal(u, id.0);
            assert(final(u)@ =~= old(u)@ + emoji_text(*emoji)) by {
                reveal_strlit(":");
            }
        },
        ReactionEmoji::Unicode(name) => {
            push_text(u, name.as_str());
        },
    }
}

/// The reactions URL of a message for an emoji.
fn reactions_url(channel: ChannelId, message: MessageId, emoji: &ReactionEmoji) -> (u: String)
    ensures
        u@ == api() + "/channels/"@ + id(channel.0) + "/messages/"@ + id(message.0) + "/reactions/"@
            + emoji_text(*emoji),
{
    let mut u = ending(at2("/channels/", channel.0, "/messages/", message.0), "/reactions/");
    push_emoji(&mut u, emoji);
    u
}

/// Add a reaction to a message.
pub fn add_reaction(channel: ChannelId, message: MessageId, emoji: ReactionEmoji) -> (r: ApiRequest)
    ensures
        r@ == bare(
            Method::Put,
            api() + "/channels/"@ + id(channel.0) + "/messages/"@ + id(message.0) + "/reactions/"@
                + emoji_text(emoji) + "/@me"@,
        ),
{
    let mut u = reactions_url(channel, message, &emoji);
    push_text(&mut u, "/@me");
    bodiless(Method::Put, u)
}

/// Whose reaction to delete: a given user's, or the current user's (`@me`).
pub open spec fn reactor(user: Option<UserId>) -> Seq<char> {
    match user {
        Some(u) => id(u.0),
        None => "@me"@,
    }
}

/// Delete a reaction from a message: a given user's, or the current user's.
pub fn delete_reaction(channel: ChannelId, message: MessageId, user_id: Option<UserId>, emoji: ReactionEmoji) -> (r: ApiRequest)
    ensures
        r@ == bare(
            Method::Delete,
            api() + "/channels/"@ + id(channel.0) + "/messages/"@ + id(message.0) + "/reactions/"@
                + emoji_text(emoji) + "/"@ + reactor(user_id),
        ),
{
    let mut u = reactions_url(channel, message, &emoji);
    push_text(&mut u, "/");
    let ghost base = u@;
    match user_id {
        Some(user) => {
            push_decimal(&mut u, user.0);
        },
        None => {
            push_text(&mut u, "@me");
        },
    }
    assert(u@ =~= base + reactor(user_id));
    bodiless(Method::Delete, u)
}

/// The query of users after whom to list reactions, if any.
pub open spec fn after_query(after: Option<UserId>) -> Seq<char> {
    match after {
        Some(u) => "&after="@ + id(u.0),
        None => Seq::empty(),
    }
}

/// Get the users who reacted with an emoji; the limit defaults to 50.
pub fn get_reactions(channel: ChannelId, message: MessageId, emoji: ReactionEmoji, limit: Option<i32>, after: Option<UserId>) -> (r: ApiRequest)
    ensures
        r@ == bare(
            Method::Get,
            api() + "/channels/"@ + id(channel.0) + "/messages/"@ + id(message.0) + "/reactions/"@
                + emoji_text(emoji) + "?limit="@ + signed_decimal(
                match limit {
                    Some(l) => l as int,
                    None => 50,
                },
            ) + after_query(after),
        ),
{
    let mut u = reactions_url(channel, message, &emoji);
    push_text(&mut u, "?limit=");
    let n: i32 = match limit {
        Some(l) => l,
        None => 50,
    };
    push_signed_decimal(&mut u, n as i64);
    let ghost base = u@;
    match after {
        Some(user) => {
            push_text(&mut u, "&after=");
            push_decimal(&mut u, user.0);
        },
        None => {},
    }
    assert(u@ =~= base + after_query(after));
    get(u)
}

/// Get the list of servers this user knows about.
pub fn get_servers() -> (r: ApiRequest)
    ensures
        r@ == bare(Method::Get, api() + "/users/@me/guilds"@),
{
    get(url("/users/@me/guilds"))
}

/// Get a server.
pub fn get_server(server: ServerId) -> (r: ApiRequest)
    ensures
        r@ == bare(Method::Get, api() + "/guilds/"@ + id(server.0)),
{
    get(at("/guilds/", server.0))
}

/// Get the members of a server.
pub fn get_server_members(server: ServerId) -> (r: ApiRequest)
    ensures
        r@ == bare(Method::Get, api() + "/guilds/"@ + id(server.0) + "/members"@),
{
    get(ending(at("/guilds/", server.0), "/members"))
}

/// Create a server.
pub fn create_server(name: &str, region: &str, icon: Option<&str>) -> (r: ApiRequest)
    ensures
        r@ == with_body(
            Method::Post,
            api() + "/guilds"@,
            object(
                seq![
                    ("name"@, text(name@)),
                    ("region"@, text(region@)),
                    ("icon"@, optional_text(icon)),
                ],
            ),
        ),
{
    let body = object3(
        "name",
        json_text(name),
        "region",
        json_text(region),
        "icon",
        json_optional_text(icon),
    );
    carrying(Method::Post, url("/guilds"), body)
}

/// Edit a server with the fields in `body`.
pub fn edit_server(server: ServerId, body: Json) -> (r: ApiRequest)
    ensures
        r@ == with_body(Method::Patch, api() + "/guilds/"@ + id(server.0), body@),
{
    carrying(Method::Patch, at("/guilds/", server.0), body)
}

/// Leave a server.
pub fn leave_server(server: ServerId) -> (r: ApiRequest)
    ensures
        r@ == bare(Method::Delete, api() + "/users/@me/guilds/"@ + id(server.0)),
{
    bodiless(Method::Delete, at("/users/@me/guilds/", server.0))
}

/// Delete a server.
pub fn delete_server(server: ServerId) -> (r: ApiRequest)
    ensures
        r@ == bare(Method::Delete, api() + "/guilds/"@ + id(server.0)),
{
    bodiless(Method::Delete, at("/guilds/", server.0))
}

/// Create an emoji in a server from an uploadable image string.
pub fn create_emoji(server: ServerId, name: &str, image: &str) -> (r: ApiRequest)
    ensures
        r@ == with_body(
            Method::Post,
            api() + "/guilds/"@ + id(server.0) + "/emojis"@,
            object(seq![("name"@, text(name@)), ("image"@, text(image@))]),
        ),
{
    carrying(
        Method::Post,
        ending(at("/guilds/", server.0), "/emojis"),
        object2("name", json_text(name), "image", json_text(image)),
    )
}

/// Rename an emoji of a server.
pub fn edit_emoji(server: ServerId, emoji: EmojiId, name: &str) -> (r: ApiRequest)
    ensures
        r@ == with_body(
            Method::Patch,
            api() + "/guilds/"@ + id(server.0) + "/emojis/"@ + id(emoji.0),
            object(seq![("name"@, text(name@))]),
        ),
{
    carrying(
        Method::Patch,
        at2("/guilds/", server.0, "/emojis/", emoji.0),
        object1("name", json_text(name)),
    )
}

/// Delete an emoji of a server.
pub fn delete_emoji(server: ServerId, emoji: EmojiId) -> (r: ApiRequest)
    ensures
        r@ == bare(
            Method::Delete,
            api() + "/guilds/"@ + id(server.0) + "/emojis/"@ + id(emoji.0),
        ),
{
    bodiless(Method::Delete, at2("/guilds/", server.0, "/emojis/", emoji.0))
}

/// Get the bans of a server.
pub fn get_bans(server: ServerId) -> (r: ApiRequest)
    ensures
        r@ == bare(Method::Get, api() + "/guilds/"@ + id(server.0) + "/bans"@),
{
    get(ending(at("/guilds/", server.0), "/bans"))
}

/// Ban a user, deleting their messages of the last given number of days.
pub fn add_ban(server: ServerId, user: UserId, delete_message_days: u32) -> (r: ApiRequest)
    ensures
        r@ == bare(
            Method::Put,
            api() + "/guilds/"@ + id(server.0) + "/bans/"@ + id(user.0) + "?delete_message_days="@
                + id(delete_message_days as u64),
        ),
{
    bodiless(
        Method::Put,
        at3("/guilds/", server.0, "/bans/", user.0, "?delete_message_days=", delete_message_days as u64),
    )
}

/// Unban a user.
pub fn remove_ban(server: ServerId, user: UserId) -> (r: ApiRequest)
    ensures
        r@ == bare(
            Method::Delete,
            api() + "/guilds/"@ + id(server.0) + "/bans/"@ + id(user.0),
        ),
{
    bodiless(Method::Delete, at2("/guilds/", server.0, "/bans/", user.0))
}

fn invite_url(invite: &str) -> (u: String)
    ensures
        u@ == api() + "/invite/"@ + invite_code(invite@),
{
    let mut u = url("/invite/");
    push_text(&mut u, resolve_invite(invite));
    u
}

/// Get an invite, given as a URL or as its code.
pub fn get_invite(invite: &str) -> (r: ApiRequest)
    ensures
        r@ == bare(Method::Get, api() + "/invite/"@ + invite_code(invite@)),
{
    get(invite_url(invite))
}

/// Get the active invites of a server.
pub fn get_server_invites(server: ServerId) -> (r: ApiRequest)
    ensures
        r@ == bare(Method::Get, api() + "/guilds/"@ + id(server.0) + "/invites"@),
{
    get(ending(at("/guilds/", server.0), "/invites"))
}

/// Get the active invites of a channel.
pub fn get_channel_invites(channel: ChannelId) -> (r: ApiRequest)
    ensures
        r@ == bare(Method::Get, api() + "/channels/"@ + id(channel.0) + "/invites"@),
{
    get(ending(at("/channels/", channel.0), "/invites"))
}

/// Accept an invite, given as a URL or as its code.
pub fn accept_invite(invite: &str) -> (r: ApiRequest)
    ensures
        r@ == bare(Method::Post, api() + "/invite/"@ + invite_code(invite@)),
{
    bodiless(Method::Post, invite_url(invite))
}

/// Create an invite to a channel; 0 for `max_age` or `max_uses` means no
/// limit.
pub fn create_invite(channel: ChannelId, max_age: u64, max_uses: u64, temporary: bool) -> (r: ApiRequest)
    ensures
        r@ == with_body(
            Method::Post,
            api() + "/channels/"@ + id(channel.0) + "/invites"@,
            object(
                seq![
                    ("validate"@, JsonModel::Null),
                    ("max_age"@, unsigned(max_age)),
                    ("max_uses"@, unsigned(max_uses)),
                    ("temporary"@, JsonModel::Bool(temporary)),
                ],
            ),
        ),
{
    let body = object4(
        "validate",
        Json::Null,
        "max_age",
        json_unsigned(max_age),
        "max_uses",
        json_unsigned(max_uses),
        "temporary",
        Json::Bool(temporary),
    );
    carrying(Method::Post, ending(at("/channels/", channel.0), "/invites"), body)
}

/// Delete an invite, given as a URL or as its code.
pub fn delete_invite(invite: &str) -> (r: ApiRequest)
    ensures
        r@ == bare(Method::Delete, api() + "/invite/"@ + invite_code(invite@)),
{
    bodiless(Method::Delete, invite_url(invite))
}

/// Get a member of a server.
pub fn get_member(server: ServerId, user: UserId) -> (r: ApiRequest)
    ensures
        r@ == bare(
            Method::Get,
            api() + "/guilds/"@ + id(server.0) + "/members/"@ + id(user.0),
        ),
{
    get(at2("/guilds/", server.0, "/members/", user.0))
}

/// Add a role to a member of a server.
pub fn add_member_role(server: ServerId, user: UserId, role: RoleId) -> (r: ApiRequest)
    ensures
        r@ == bare(
            Method::Put,
            api() + "/guilds/"@ + id(server.0) + "/members/"@ + id(user.0) + "/roles/"@ + id(role.0),
        ),
{
    bodiless(Method::Put, at3("/guilds/", server.0, "/members/", user.0, "/roles/", role.0))
}

/// Remove a role from a member of a server.
pub fn remove_member_role(server: ServerId, user: UserId, role: RoleId) -> (r: ApiRequest)
    ensures
        r@ == bare(
            Method::Delete,
            api() + "/guilds/"@ + id(server.0) + "/members/"@ + id(user.0) + "/roles/"@ + id(role.0),
        ),
{
    bodiless(
        Method::Delete,
        at3("/guilds/", server.0, "/members/", user.0, "/roles/", role.0),
    )
}

/// Edit a member of a server with the fields in `body`.
pub fn edit_member(server: ServerId, user: UserId, body: Json) -> (r: ApiRequest)
    ensures
        r@ == with_body(
            Method::Patch,
            api() + "/guilds/"@ + id(server.0) + "/members/"@ + id(user.0),
            body@,
        ),
{
    carrying(Method::Patch, at2("/guilds/", server.0, "/members/", user.0), body)
}

/// Set the current user's nickname in a server.
pub fn edit_nickname(server: ServerId, nick: &str) -> (r: ApiRequest)
    ensures
        r@ == with_body(
            Method::Patch,
            api() + "/guilds/"@ + id(server.0) + "/members/@me/nick"@,
            object(seq![("nick"@, text(nick@))]),
        ),
{
    carrying(
        Method::Patch,
        ending(at("/guilds/", server.0), "/members/@me/nick"),
        object1("nick", json_text(nick)),
    )
}

/// Kick a member from a server.
pub fn kick_member(server: ServerId, user: UserId) -> (r: ApiRequest)
    ensures
        r@ == bare(
            Method::Delete,
            api() + "/guilds/"@ + id(server.0) + "/members/"@ + id(user.0),
        ),
{
    bodiless(Method::Delete, at2("/guilds/", server.0, "/members/", user.0))
}

/// Get the roles of a server.
pub fn get_roles(server: ServerId) -> (r: ApiRequest)
    ensures
        r@ == bare(Method::Get, api() + "/guilds/"@ + id(server.0) + "/roles"@),
{
    get(ending(at("/guilds/", server.0), "/roles"))
}

/// Create a role; every field that is not given is sent as `null`.
pub fn create_role(server: ServerId, name: Option<&str>, permissions: Option<u64>, color: Option<u64>, hoist: Option<bool>, mentionable: Option<bool>) -> (r: ApiRequest)
    ensures
        r@ == with_body(
            Method::Post,
            api() + "/guilds/"@ + id(server.0) + "/roles"@,
            object(
                seq![
                    ("name"@, optional_text(name)),
                    ("permissions"@, optional_unsigned(permissions)),
                    ("color"@, optional_unsigned(color)),
                    ("hoist"@, optional_bool(hoist)),
                    ("mentionable"@, optional_bool(mentionable)),
                ],
            ),
        ),
{
    let body = object5(
        "name",
        json_optional_text(name),
        "permissions",
        json_optional_unsigned(permissions),
        "color",
        json_optional_unsigned(color),
        "hoist",
        json_optional_bool(hoist),
        "mentionable",
        json_optional_bool(mentionable),
    );
    carrying(Method::Post, ending(at("/guilds/", server.0), "/roles"), body)
}

/// A role is created with exactly the permissions, color, hoisting and
/// mentionability given: each given one is sent as that value (no
/// permissions, `Some(0)`, is sent as the number 0), and each one not given as
/// `null`.
pub proof fn lemma_create_role_sends_what_is_given(
    r: RequestModel,
    server: ServerId,
    name: Option<&str>,
    permissions: Option<u64>,
    color: Option<u64>,
    hoist: Option<bool>,
    mentionable: Option<bool>,
)
    requires
        r == with_body(
            Method::Post,
            api() + "/guilds/"@ + id(server.0) + "/roles"@,
            object(
                seq![
                    ("name"@, optional_text(name)),
                    ("permissions"@, optional_unsigned(permissions)),
                    ("color"@, optional_unsigned(color)),
                    ("hoist"@, optional_bool(hoist)),
                    ("mentionable"@, optional_bool(mentionable)),
                ],
            ),
        ),
    ensures
        r.method == Method::Post,
        r.body matches Some(JsonModel::Object(ms)) && ms.len() == 5 && ms[1].0 == "permissions"@
            && ms[1].1 == match permissions {
            Some(n) => JsonModel::Number(NumberModel::PosInt(n)),
            None => JsonModel::Null,
        } && ms[2].0 == "color"@ && ms[2].1 == match color {
            Some(n) => JsonModel::Number(NumberModel::PosInt(n)),
            None => JsonModel::Null,
        } && ms[3].1 == match hoist {
            Some(b) => JsonModel::Bool(b),
            None => JsonModel::Null,
        } && ms[4].1 == match mentionable {
            Some(b) => JsonModel::Bool(b),
            None => JsonModel::Null,
        },
{
}

/// Create a role with the fields in `body`.
pub fn create_role_from_builder(server: ServerId, body: Json) -> (r: ApiRequest)
    ensures
        r@ == with_body(Method::Post, api() + "/guilds/"@ + id(server.0) + "/roles"@, body@),
{
    carrying(Method::Post, ending(at("/guilds/", server.0), "/roles"), body)
}

/// Edit a role with the fields in `body`.
pub fn edit_role(server: ServerId, role: RoleId, body: Json) -> (r: ApiRequest)
    ensures
        r@ == with_body(
            Method::Patch,
            api() + "/guilds/"@ + id(server.0) + "/roles/"@ + id(role.0),
            body@,
        ),
{
    carrying(Method::Patch, at2("/guilds/", server.0, "/roles/", role.0), body)
}

/// The entry that places one role in a reordering.
pub open spec fn role_position(entry: (RoleId, usize)) -> JsonModel {
    object(seq![("id"@, unsigned(entry.0.0)), ("position"@, unsigned(entry.1 as u64))])
}

/// Reorder the roles of a server: one `{id, position}` entry per role, in
/// the given order.
pub fn reorder_roles(server: ServerId, roles: &[(RoleId, usize)]) -> (r: ApiRequest)
    ensures
        r@ == with_body(
            Method::Patch,
            api() + "/guilds/"@ + id(server.0) + "/roles"@,
            JsonModel::Array(roles@.map_values(|e: (RoleId, usize)| role_position(e))),
        ),
{
    let mut elements: Vec<Json> = Vec::new();
    for i in 0..roles.len()
        invariant
            elements@.len() == i,
            forall|k: int| 0 <= k < i ==> #[trigger] elements@[k]@ == role_position(roles@[k]),
    {
        let (role, position) = roles[i];
        elements.push(
            object2("id", json_unsigned(role.0), "position", json_unsigned(position as u64)),
        );
    }
    let array = json_array(elements);
    assert(Seq::new(elements@.len(), |k: int| elements@[k]@) =~= roles@.map_values(
        |e: (RoleId, usize)| role_position(e),
    ));
    carrying(Method::Patch, ending(at("/guilds/", server.0), "/roles"), array)
}

/// Delete a role of a server.
pub fn delete_role(server: ServerId, role: RoleId) -> (r: ApiRequest)
    ensures
        r@ == bare(
            Method::Delete,
            api() + "/guilds/"@ + id(server.0) + "/roles/"@ + id(role.0),
        ),
{
    bodiless(Method::Delete, at2("/guilds/", server.0, "/roles/", role.0))
}

/// Create (or get) the private channel with a user.
pub fn create_private_channel(recipient: UserId) -> (r: ApiRequest)
    ensures
        r@ == with_body(
            Method::Post,
            api() + "/users/@me/channels"@,
            object(seq![("recipient_id"@, unsigned(recipient.0))]),
        ),
{
    carrying(
        Method::Post,
        url("/users/@me/channels"),
        object1("recipient_id", json_unsigned(recipient.0)),
    )
}

/// Create a direct-message channel with a user.
pub fn create_dm(recipient_id: UserId) -> (r: ApiRequest)
    ensures
        r@ == with_body(
            Method::Post,
            api() + "/users/@me/channels"@,
            object(seq![("recipient_id"@, unsigned(recipient_id.0))]),
        ),
{
    carrying(
        Method::Post,
        url("/users/@me/channels"),
        object1("recipient_id", json_unsigned(recipient_id.0)),
    )
}

/// The URL at which a user's avatar is located.
pub fn get_user_avatar_url(user: UserId, avatar: &str) -> (u: String)
    ensures
        u@ == api() + "/users/"@ + id(user.0) + "/avatars/"@ + avatar@ + ".jpg"@,
{
    let mut u = ending(at("/users/", user.0), "/avatars/");
    push_text(&mut u, avatar);
    push_text(&mut u, ".jpg");
    u
}

/// Download a user's avatar.
pub fn get_user_avatar(user: UserId, avatar: &str) -> (r: ApiRequest)
    ensures
        r@ == bare(
            Method::Get,
            api() + "/users/"@ + id(user.0) + "/avatars/"@ + avatar@ + ".jpg"@,
        ),
{
    get(get_user_avatar_url(user, avatar))
}

/// Get a user.
pub fn get_user(user: UserId) -> (r: ApiRequest)
    ensures
        r@ == bare(Method::Get, api() + "/users/"@ + id(user.0)),
{
    get(at("/users/", user.0))
}

/// Get the logged-in user's profile.
pub fn get_current_user() -> (r: ApiRequest)
    ensures
        r@ == bare(Method::Get, api() + "/users/@me"@),
{
    get(url("/users/@me"))
}

/// Edit the logged-in user's profile with the fields in `body`.
pub fn edit_profile(body: Json) -> (r: ApiRequest)
    ensures
        r@ == with_body(Method::Patch, api() + "/users/@me"@, body@),
{
    carrying(Method::Patch, url("/users/@me"), body)
}

/// Get the available voice regions.
pub fn get_voice_regions() -> (r: ApiRequest)
    ensures
        r@ == bare(Method::Get, api() + "/voice/regions"@),
{
    get(url("/voice/regions"))
}

/// Move a member of a server to another voice channel.
pub fn move_member_voice(server: ServerId, user: UserId, channel: ChannelId) -> (r: ApiRequest)
    ensures
        r@ == with_body(
            Method::Patch,
            api() + "/guilds/"@ + id(server.0) + "/members/"@ + id(user.0),
            object(seq![("channel_id"@, unsigned(channel.0))]),
        ),
{
    carrying(
        Method::Patch,
        at2("/guilds/", server.0, "/members/", user.0),
        object1("channel_id", json_unsigned(channel.0)),
    )
}

/// Start pruning the members inactive for the given number of days.
pub fn begin_server_prune(server: ServerId, days: u16) -> (r: ApiRequest)
    ensures
        r@ == with_body(
            Method::Post,
            api() + "/guilds/"@ + id(server.0) + "/prune"@,
            object(seq![("days"@, unsigned(days as u64))]),
        ),
{
    carrying(
        Method::Post,
        ending(at("/guilds/", server.0), "/prune"),
        object1("days", json_unsigned(days as u64)),
    )
}

/// Count the members that a prune of the given number of days would remove.
pub fn get_server_prune_count(server: ServerId, days: u16) -> (r: ApiRequest)
    ensures
        r@ == with_body(
            Method::Get,
            api() + "/guilds/"@ + id(server.0) + "/prune"@,
            object(seq![("days"@, unsigned(days as u64))]),
        ),
{
    carrying(
        Method::Get,
        ending(at("/guilds/", server.0), "/prune"),
        object1("days", json_unsigned(days as u64)),
    )
}

/// Set a note on a user, readable only by the logged-in user.
pub fn edit_note(user: UserId, note: &str) -> (r: ApiRequest)
    ensures
        r@ == with_body(
            Method::Put,
            api() + "/users/@me/notes/"@ + id(user.0),
            object(seq![("note"@, text(note@))]),
        ),
{
    carrying(Method::Put, at("/users/@me/notes/", user.0), object1("note", json_text(note)))
}

/// Get information about the application and its owner.
pub fn get_application_info() -> (r: ApiRequest)
    ensures
        r@ == bare(Method::Get, api() + "/oauth2/applications/@me"@),
{
    get(url("/oauth2/applications/@me"))
}

/// Ask how many shards Discord suggests.
pub fn suggested_shard_count() -> (r: ApiRequest)
    ensures
        r@ == bare(Method::Get, api() + "/gateway/bot"@),
{
    get(url("/gateway/bot"))
}

/// Ask for the websocket gateway URL.
pub fn get_gateway_url() -> (r: ApiRequest)
    ensures
        r@ == bare(Method::Get, api() + "/gateway"@),
{
    get(url("/gateway"))
}

/// The base of the status page's URLs.
pub open spec fn status_api() -> Seq<char> {
    "https://status.discord.com/api/v2"@
}

fn status_url(p: &str) -> (u: String)
    ensures
        u@ == status_api() + p@,
{
    let mut u = "https://status.discord.com/api/v2".to_owned();
    push_text(&mut u, p);
    u
}

/// Get the unresolved incidents from the status page.
pub fn get_unresolved_incidents() -> (r: ApiRequest)
    ensures
        r@ == bare(Method::Get, status_api() + "/incidents/unresolved.json"@),
{
    get(status_url("/incidents/unresolved.json"))
}

/// Get the active maintenances from the status page.
pub fn get_active_maintenances() -> (r: ApiRequest)
    ensures
        r@ == bare(Method::Get, status_api() + "/scheduled-maintenances/active.json"@),
{
    get(status_url("/scheduled-maintenances/active.json"))
}

/// Get the upcoming maintenances from the status page.
pub fn get_upcoming_maintenances() -> (r: ApiRequest)
    ensures
        r@ == bare(Method::Get, status_api() + "/scheduled-maintenances/upcoming.json"@),
{
    get(status_url("/scheduled-maintenances/upcoming.json"))
}

} // verus!
