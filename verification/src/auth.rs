use vstd::prelude::*;
use crate::text::{trimmed, trim, has_prefix};
use crate::request::push_text;

verus! {

/// The token of a bot account as the API expects it: `Bot ` and the given
/// token, trimmed.
pub fn bot_token(token: &str) -> (t: String)
    ensures
        t@ == "Bot "@ + trimmed(token@),
{
    let mut t = "Bot ".to_owned();
    push_text(&mut t, trim(token));
    t
}

/// The token of a user account: the given token, trimmed.
pub fn user_token(token: &str) -> (t: String)
    ensures
        t@ == trimmed(token@),
{
    trim(token).to_owned()
}

/// `p` is a prefix of `s`.
pub open spec fn starts_with(s: Seq<char>, p: Seq<char>) -> bool {
    p.len() <= s.len() && s.take(p.len() as int) == p
}

/// The code of an invite given either as a URL of the form
/// `http://discord.gg/CODE` (or `https://`, or without a scheme) or as the
/// code alone.
pub open spec fn invite_code(s: Seq<char>) -> Seq<char> {
    if starts_with(s, "http://discord.gg/"@) {
        s.skip("http://discord.gg/"@.len() as int)
    } else if starts_with(s, "https://discord.gg/"@) {
        s.skip("https://discord.gg/"@.len() as int)
    } else if starts_with(s, "discord.gg/"@) {
        s.skip("discord.gg/"@.len() as int)
    } else {
        s
    }
}

fn strip<'a>(s: &'a str, p: &str) -> (r: &'a str)
    requires
        starts_with(s@, p@),
    ensures
        r@ == s@.skip(p@.len() as int),
{
    let n = s.unicode_len();
    let m = p.unicode_len();
    let r = s.substring_char(m, n);
    assert(r@ =~= s@.skip(p@.len() as int));
    r
}

/// The code of an invite, from a URL or from the code itself.
pub fn resolve_invite(invite: &str) -> (code: &str)
    ensures
        code@ == invite_code(invite@),
{
    if has_prefix(invite, "http://discord.gg/") {
        strip(invite, "http://discord.gg/")
    } else if has_prefix(invite, "https://discord.gg/") {
        strip(invite, "https://discord.gg/")
    } else if has_prefix(invite, "discord.gg/") {
        strip(invite, "discord.gg/")
    } else {
        invite
    }
}

} // verus!
