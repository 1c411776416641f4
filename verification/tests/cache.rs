use discord::cache::{cache_text, cached_token, rewrite_cache, cache_needs_update, cache_login_plan, cache_login, line_entry, first_field_of, CacheLogin};
use discord::json::Json;
use discord::request::Method;
use discord::routes::password_login;
use discord::error::Error;

fn s(t: &str) -> Json {
    Json::Str(t.to_string())
}

fn obj(members: Vec<(&str, Json)>) -> Json {
    Json::Object(members.into_iter().map(|(k, v)| (k.to_string(), v)).collect())
}

fn lines(v: &[&str]) -> Vec<String> {
    v.iter().map(|s| s.to_string()).collect()
}

#[test]
fn cached_token_is_the_first_matching_line_trimmed() {
    let file = lines(&["bob@x\tb1", "alice@x\t  a1 ", "alice@x\ta2"]);
    assert_eq!(cached_token(&file, "alice@x"), Some("a1".to_string()));
    assert_eq!(cached_token(&file, "bob@x"), Some("b1".to_string()));
    assert_eq!(cached_token(&file, "carol@x"), None);
}

#[test]
fn lines_without_exactly_two_fields_are_skipped() {
    let file = lines(&["alice@x", "alice@x\ta\tb", "alice@x\tgood"]);
    assert_eq!(cached_token(&file, "alice@x"), Some("good".to_string()));
    assert_eq!(line_entry("alice@x", "alice@x"), None);
    assert_eq!(line_entry("alice@x\ta\tb", "alice@x"), None);
    assert_eq!(line_entry("alice@x\t", "alice@x"), Some(String::new()));
}

#[test]
fn first_field_is_before_the_first_tab() {
    assert_eq!(first_field_of("a\tb\tc"), "a");
    assert_eq!(first_field_of("abc"), "abc");
    assert_eq!(first_field_of("\tx"), "");
}

#[test]
fn rewrite_puts_the_new_token_first_and_drops_old_lines_of_the_email() {
    let file = lines(&["alice@x\told", "bob@x\tb1", "alice@x", "carol@x\tc1\textra"]);
    let out = rewrite_cache(&file, "alice@x", "new");
    assert_eq!(out, lines(&["alice@x\tnew", "bob@x\tb1", "carol@x\tc1\textra"]));
}

#[test]
fn cache_reads_back_after_a_rewrite() {
    let file = lines(&["alice@x\told", "bob@x\tb1"]);
    let out = rewrite_cache(&file, "alice@x", " fresh ");
    assert_eq!(cached_token(&out, "alice@x"), Some("fresh".to_string()));
    assert_eq!(cached_token(&out, "bob@x"), cached_token(&file, "bob@x"));
}

#[test]
fn cache_is_written_only_for_a_new_token() {
    assert!(!cache_needs_update(&Some("t".to_string()), "t"));
    assert!(cache_needs_update(&Some("t".to_string()), "u"));
    assert!(cache_needs_update(&None, "t"));
}

#[test]
fn login_plan_prefers_the_cached_token() {
    assert_eq!(cache_login_plan(&Some("t".to_string()), Some("pw")).unwrap(), CacheLogin::CachedToken);
    assert_eq!(cache_login_plan(&Some("t".to_string()), None).unwrap(), CacheLogin::CachedToken);
    assert_eq!(cache_login_plan(&None, Some("pw")).unwrap(), CacheLogin::Password);
    match cache_login_plan(&None, None) {
        Err(Error::Other(m)) => assert_eq!(m, "No password was specified and no cached token was found"),
        other => panic!("unexpected {:?}", other),
    }
}

#[test]
fn cache_text_ends_each_line_with_a_newline() {
    assert_eq!(cache_text(&lines(&["a\tb", "c\td"])), "a\tb\nc\td\n");
    assert_eq!(cache_text(&lines(&[])), "");
}

#[test]
fn cached_login_presents_the_cached_token() {
    let l = cache_login("a@x", Some("pw"), &Some("tok".to_string())).unwrap();
    assert_eq!(l.authorization, Some("tok".to_string()));
    assert_eq!(l.request.method, Method::Post);
    assert_eq!(l.request.url, "https://discord.com/api/v6/auth/login");
    assert_eq!(l.request.body, Some(obj(vec![("email", s("a@x")), ("password", s("pw"))])));
    let l = cache_login("a@x", None, &Some("tok".to_string())).unwrap();
    assert_eq!(l.authorization, Some("tok".to_string()));
    assert_eq!(l.request.body, Some(obj(vec![("email", s("a@x"))])));
}

#[test]
fn uncached_login_is_the_password_login() {
    let l = cache_login("a@x", Some("pw"), &None).unwrap();
    let p = password_login("a@x", "pw");
    assert_eq!(l.authorization, None);
    assert_eq!(p.authorization, None);
    assert_eq!(l.request.url, p.request.url);
    assert_eq!(l.request.method, p.request.method);
    assert_eq!(l.request.body, p.request.body);
    assert_eq!(p.request.body, Some(obj(vec![("email", s("a@x")), ("password", s("pw"))])));
}

#[test]
fn login_without_password_or_cached_token_is_refused() {
    match cache_login("a@x", None, &None) {
        Err(Error::Other(m)) => assert_eq!(m, "No password was specified and no cached token was found"),
        Ok(_) => panic!("expected an error"),
        Err(e) => panic!("unexpected {:?}", e),
    }
}
