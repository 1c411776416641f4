use discord::json::{Json, JsonNumber};
use discord::response::{login_token, gateway_url, shard_count, adopt_returned_token, take_member, get_member, status_entries};
use discord::error::Error;

fn pairs(v: &[(&str, &str)]) -> Vec<(String, String)> {
    v.iter().map(|(a, b)| (a.to_string(), b.to_string())).collect()
}

fn members(v: Vec<(&str, Json)>) -> Vec<(String, Json)> {
    v.into_iter().map(|(k, j)| (k.to_string(), j)).collect()
}

#[test]
fn login_response_gives_the_token() {
    assert_eq!(login_token(&pairs(&[("user", "u"), ("token", "abc")])).unwrap(), "abc");
    match login_token(&pairs(&[("user", "u")])) {
        Err(Error::Protocol(m)) => assert_eq!(m, "Response missing \"token\" in Discord::new()"),
        other => panic!("unexpected {:?}", other),
    }
}

#[test]
fn gateway_response_gives_the_url() {
    assert_eq!(gateway_url(&pairs(&[("url", "wss://gateway.discord.gg")])).unwrap(), "wss://gateway.discord.gg");
    assert!(matches!(gateway_url(&pairs(&[])), Err(Error::Protocol(_))));
}

#[test]
fn shard_count_reads_a_whole_number() {
    let r = shard_count(members(vec![("url", Json::Str("x".into())), ("shards", Json::Number(JsonNumber::PosInt(3)))]));
    assert_eq!(r.unwrap(), 3);
}

#[test]
fn shard_count_refuses_other_values() {
    match shard_count(members(vec![("shards", Json::Number(JsonNumber::NegInt(-1)))])) {
        Err(Error::Decode(m, v)) => {
            assert_eq!(m, "Invalid \"shards\"");
            assert_eq!(v, Json::Number(JsonNumber::NegInt(-1)));
        }
        other => panic!("unexpected {:?}", other),
    }
    match shard_count(members(vec![("url", Json::Null)])) {
        Err(Error::Decode(m, v)) => {
            assert_eq!(m, "suggested_shard_count missing \"shards\"");
            assert_eq!(v, Json::Object(members(vec![("url", Json::Null)])));
        }
        other => panic!("unexpected {:?}", other),
    }
}

#[test]
fn take_member_removes_it() {
    let mut m = members(vec![("a", Json::Bool(true)), ("b", Json::Null)]);
    assert_eq!(take_member(&mut m, "a"), Some(Json::Bool(true)));
    assert_eq!(m, members(vec![("b", Json::Null)]));
    assert_eq!(take_member(&mut m, "a"), None);
}

#[test]
fn profile_edit_adopts_a_returned_token() {
    let mut token = "old".to_string();
    let rest = adopt_returned_token(&mut token, members(vec![("id", Json::Str("1".into())), ("token", Json::Str("new".into()))]));
    assert_eq!(token, "new");
    assert_eq!(rest, members(vec![("id", Json::Str("1".into()))]));
    let rest = adopt_returned_token(&mut token, members(vec![("id", Json::Str("1".into()))]));
    assert_eq!(token, "new");
    assert_eq!(rest.len(), 1);
    let _ = adopt_returned_token(&mut token, members(vec![("token", Json::Null)]));
    assert_eq!(token, "new");
}

#[test]
fn get_member_reads_the_first_member_by_name() {
    let v = Json::Object(members(vec![("a", Json::Bool(true)), ("b", Json::Null), ("a", Json::Bool(false))]));
    assert_eq!(get_member(&v, "a"), Some(&Json::Bool(true)));
    assert_eq!(get_member(&v, "b"), Some(&Json::Null));
    assert_eq!(get_member(&v, "c"), None);
    assert_eq!(get_member(&Json::Array(vec![]), "a"), None);
}

#[test]
fn status_entries_lists_the_items_under_the_key() {
    let items = vec![Json::Str("x".into()), Json::Number(JsonNumber::PosInt(1))];
    let r = status_entries(members(vec![("page", Json::Null), ("incidents", Json::Array(items))]), "incidents");
    assert_eq!(r.unwrap(), vec![Json::Str("x".into()), Json::Number(JsonNumber::PosInt(1))]);
}

#[test]
fn status_entries_without_the_key_is_empty() {
    let r = status_entries(members(vec![("page", Json::Null)]), "scheduled_maintenances");
    assert_eq!(r.unwrap(), vec![]);
}

#[test]
fn status_entries_refuses_a_value_that_is_not_an_array() {
    match status_entries(members(vec![("incidents", Json::Str("none".into()))]), "incidents") {
        Err(Error::Decode(m, v)) => {
            assert_eq!(m, "Expected array");
            assert_eq!(v, Json::Str("none".into()));
        }
        other => panic!("unexpected {:?}", other),
    }
}
