use vstd::prelude::*;
use crate::json::{Json, JsonModel, JsonNumber, NumberModel, json_members_model, json_seq_model};
use crate::error::Error;
use crate::request::lemma_members_model;
use crate::text::same_text;

verus! {

/// The model of a list of object members.
pub open spec fn members(v: Seq<(String, Json)>) -> Seq<(Seq<char>, JsonModel)> {
    json_members_model(v)
}

/// `k` is the position of the first member named `key`.
pub open spec fn first_member_at(ms: Seq<(Seq<char>, JsonModel)>, key: Seq<char>, k: int) -> bool {
    0 <= k < ms.len() && ms[k].0 == key && forall|j: int| 0 <= j < k ==> ms[j].0 != key
}

/// No member is named `key`.
pub open spec fn no_member(ms: Seq<(Seq<char>, JsonModel)>, key: Seq<char>) -> bool {
    forall|j: int| 0 <= j < ms.len() ==> ms[j].0 != key
}

/// Removes the member named `key` from an object's members and gives its
/// value, as `Map::remove` does on a JSON object.
pub fn take_member(ms: &mut Vec<(String, Json)>, key: &str) -> (r: Option<Json>)
    ensures
        match r {
            Some(v) => exists|k: int|
                first_member_at(members(old(ms)@), key@, k) && v@ == members(old(ms)@)[k].1
                    && members(final(ms)@) == members(old(ms)@).remove(k),
            None => no_member(members(old(ms)@), key@) && final(ms)@ == old(ms)@,
        },
{
    proof {
        lemma_members_model(ms@);
    }
    let n = ms.len();
    let mut i: usize = 0;
    while i < n
        invariant
            n == ms@.len(),
            i <= n,
            ms@ == old(ms)@,
            forall|j: int| 0 <= j < i ==> members(ms@)[j].0 != key@,
            members(ms@).len() == ms@.len(),
            forall|j: int| 0 <= j < ms@.len() ==> #[trigger] members(ms@)[j] == (ms@[j].0@, ms@[j].1@),
        decreases n - i,
    {
        if same_text(ms[i].0.as_str(), key) {
            let ghost before = ms@;
            let (_, v) = ms.remove(i);
            proof {
                lemma_members_model(ms@);
                assert(members(ms@) =~= members(before).remove(i as int));
                assert(first_member_at(members(before), key@, i as int));
                assert(v@ == members(before)[i as int].1);
            }
            return Some(v);
        }
        i = i + 1;
    }
    None
}

/// The value of the first member named `key` of an object; nothing for a
/// value that is not an object.
pub open spec fn member_value(j: JsonModel, key: Seq<char>) -> Option<JsonModel> {
    match j {
        JsonModel::Object(ms) => if exists|k: int| first_member_at(ms, key, k) {
            Some(ms[choose|k: int| first_member_at(ms, key, k)].1)
        } else {
            None
        },
        _ => None,
    }
}

/// A value that may be missing, by its model.
pub open spec fn opt_json(o: Option<&Json>) -> Option<JsonModel> {
    match o {
        Some(v) => Some(v@),
        None => None,
    }
}

/// Looks up a member of an object by name, as `Value::get` does; a value
/// that is not an object has no members.
pub fn get_member<'a>(j: &'a Json, key: &str) -> (r: Option<&'a Json>)
    ensures
        opt_json(r) == member_value(j@, key@),
{
    match j {
        Json::Object(ms) => {
            proof {
                lemma_members_model(ms@);
            }
            let n = ms.len();
            let mut i: usize = 0;
            while i < n
                invariant
                    n == ms@.len(),
                    i <= n,
                    j@ == JsonModel::Object(members(ms@)),
                    members(ms@).len() == ms@.len(),
                    forall|t: int| 0 <= t < ms@.len() ==> #[trigger] members(ms@)[t] == (ms@[t].0@, ms@[t].1@),
                    forall|t: int| 0 <= t < i ==> members(ms@)[t].0 != key@,
                decreases n - i,
            {
                if same_text(ms[i].0.as_str(), key) {
                    let ghost mm = members(ms@);
                    assert(first_member_at(mm, key@, i as int));
                    let ghost k = choose|k: int| first_member_at(mm, key@, k);
                    assert(k == i) by {
                        if k < i {
                            assert(mm[k].0 != key@);
                        } else if k > i {
                            assert(mm[i as int].0 != key@);
                        }
                    }
                    return Some(&ms[i].1);
                }
                i = i + 1;
            }
            None
        },
        _ => None,
    }
}

/// The entries that a status page response lists under `key`: none when the
/// member is missing, the items when it is an array, and an error for any
/// other value.
pub fn status_entries(response: Vec<(String, Json)>, key: &str) -> (r: Result<Vec<Json>, Error>)
    ensures
        ({
            let ms = members(response@);
            if no_member(ms, key@) {
                r matches Ok(v) && v@.len() == 0
            } else {
                exists|k: int|
                    first_member_at(ms, key@, k) && match ms[k].1 {
                        JsonModel::Array(items) => r matches Ok(v) && json_seq_model(v@) == items,
                        _ => r matches Err(Error::Decode(m, v)) && m@ == "Expected array"@ && v@
                            == ms[k].1,
                    }
            }
        }),
{
    let mut rest = response;
    match take_member(&mut rest, key) {
        Some(Json::Array(items)) => Ok(items),
        Some(v) => Err(Error::Decode("Expected array", v)),
        None => Ok(Vec::new()),
    }
}

/// The value of the first field named `key` among string fields.
pub open spec fn field_value(fields: Seq<(String, String)>, key: Seq<char>) -> Option<Seq<char>> {
    if exists|k: int| 0 <= k < fields.len() && fields[k].0@ == key {
        Some(fields[choose|k: int| 0 <= k < fields.len() && fields[k].0@ == key && forall|j: int|
            0 <= j < k ==> fields[j].0@ != key].1@)
    } else {
        None
    }
}

fn lookup_field(fields: &Vec<(String, String)>, key: &str) -> (r: Option<String>)
    ensures
        match r {
            Some(v) => field_value(fields@, key@) == Some(v@),
            None => field_value(fields@, key@) is None,
        },
{
    let n = fields.len();
    let mut i: usize = 0;
    while i < n
        invariant
            n == fields@.len(),
            i <= n,
            forall|j: int| 0 <= j < i ==> fields@[j].0@ != key@,
        decreases n - i,
    {
        if same_text(fields[i].0.as_str(), key) {
            let ghost k = choose|k: int| 0 <= k < fields@.len() && fields@[k].0@ == key@ && forall|j: int|
                0 <= j < k ==> fields@[j].0@ != key@;
            assert(0 <= i < fields@.len() && fields@[i as int].0@ == key@ && forall|j: int|
                0 <= j < i ==> fields@[j].0@ != key@);
            assert(k == i) by {
                if k < i {
                } else if k > i {
                    assert(fields@[i as int].0@ != key@);
                }
            }
            return Some(fields[i].1.clone());
        }
        i = i + 1;
    }
    None
}

/// The token that a login response holds.
pub fn login_token(fields: &Vec<(String, String)>) -> (r: Result<String, Error>)
    ensures
        match field_value(fields@, "token"@) {
            Some(t) => r matches Ok(s) && s@ == t,
            None => r matches Err(Error::Protocol(m)) && m@ == "Response missing \"token\" in Discord::new()"@,
        },
{
    match lookup_field(fields, "token") {
        Some(t) => Ok(t),
        None => Err(Error::Protocol("Response missing \"token\" in Discord::new()")),
    }
}

/// The websocket URL that a gateway response holds.
pub fn gateway_url(fields: &Vec<(String, String)>) -> (r: Result<String, Error>)
    ensures
        match field_value(fields@, "url"@) {
            Some(u) => r matches Ok(s) && s@ == u,
            None => r matches Err(Error::Protocol(m)) && m@
                == "Response missing \"url\" in Discord::get_gateway_url()"@,
        },
{
    match lookup_field(fields, "url") {
        Some(u) => Ok(u),
        None => Err(Error::Protocol("Response missing \"url\" in Discord::get_gateway_url()")),
    }
}

/// The number of shards that a `/gateway/bot` response suggests: the
/// `shards` member when it is a non-negative integer.
pub fn shard_count(response: Vec<(String, Json)>) -> (r: Result<u64, Error>)
    ensures
        ({
            let ms = members(response@);
            if no_member(ms, "shards"@) {
                r matches Err(Error::Decode(m, v)) && m@ == "suggested_shard_count missing \"shards\""@
                    && v@ == JsonModel::Object(ms)
            } else {
                exists|k: int|
                    first_member_at(ms, "shards"@, k) && match ms[k].1 {
                        JsonModel::Number(NumberModel::PosInt(n)) => r == Ok::<u64, Error>(n),
                        _ => r matches Err(Error::Decode(m, v)) && m@ == "Invalid \"shards\""@ && v@
                            == ms[k].1,
                    }
            }
        }),
{
    let mut value = response;
    match take_member(&mut value, "shards") {
        Some(v) => match v {
            Json::Number(JsonNumber::PosInt(n)) => Ok(n),
            _ => Err(Error::Decode("Invalid \"shards\"", v)),
        },
        None => {
            assert(value@ == response@);
            Err(Error::Decode("suggested_shard_count missing \"shards\"", Json::Object(value)))
        },
    }
}

/// After a profile edit: when the response carries a new `token` string, the
/// session switches to it (a password change invalidates the old one). The
/// `token` member is taken out of the response either way; the rest is
/// returned.
pub fn adopt_returned_token(token: &mut String, response: Vec<(String, Json)>) -> (rest: Vec<(String, Json)>)
    ensures
        ({
            let ms = members(response@);
            if no_member(ms, "token"@) {
                final(token)@ == old(token)@ && rest@ == response@
            } else {
                exists|k: int|
                    first_member_at(ms, "token"@, k) && members(rest@) == ms.remove(k) && match ms[k].1 {
                        JsonModel::Str(t) => final(token)@ == t,
                        _ => final(token)@ == old(token)@,
                    }
            }
        }),
{
    let mut rest = response;
    match take_member(&mut rest, "token") {
        Some(Json::Str(t)) => {
            *token = t;
        },
        _ => {},
    }
    rest
}

} // verus!
