use std::sync::Arc;

use phira_client::client::{API_URL, ME_PATH};
use phira_client::session::parse_tokens;
use phira_client::{
    build_headers, decimal, failure_message, is_success, recv_raw, register_body, set_access_token_sync,
    signed_decimal, Client, ClientError, Headers, LoginParams, ObjectCache, QueryBuilder,
};

#[derive(Debug, PartialEq)]
struct Chart {
    id: i32,
    name: String,
}

fn chart(id: i32, name: &str) -> Chart {
    Chart { id, name: name.to_string() }
}

fn value_of(pairs: &[(String, String)], key: &str) -> Option<String> {
    let found: Vec<&(String, String)> = pairs.iter().filter(|(k, _)| k == key).collect();
    assert!(found.len() <= 1, "key {key} occurs more than once");
    found.first().map(|(_, v)| v.clone())
}

fn object_keys(body: &str) -> Vec<String> {
    let value: serde_json::Value = serde_json::from_str(body).unwrap();
    let mut keys: Vec<String> = value.as_object().unwrap().keys().cloned().collect();
    keys.sort();
    keys
}

#[test]
fn page_zero_is_sent_as_one() {
    let q: QueryBuilder<Chart> = Client::query::<Chart>().page(0);
    assert_eq!(value_of(&q.wire_query(), "page"), Some("1".to_string()));
}

#[test]
fn page_two_is_sent_as_three() {
    let q = Client::query::<Chart>().page(2);
    assert_eq!(value_of(&q.wire_query(), "page"), Some("3".to_string()));
}

#[test]
fn no_page_is_sent_as_one() {
    let q = Client::query::<Chart>();
    let wire = q.wire_query();
    assert_eq!(wire.len(), 1);
    assert_eq!(value_of(&wire, "page"), Some("1".to_string()));
}

#[test]
fn largest_page_does_not_overflow() {
    let q = Client::query::<Chart>().page(u64::MAX);
    assert_eq!(value_of(&q.wire_query(), "page"), Some("18446744073709551616".to_string()));
}

#[test]
fn flag_sets_one() {
    let q = Client::query::<Chart>().flag("mine");
    assert_eq!(value_of(&q.wire_query(), "mine"), Some("1".to_string()));
}

#[test]
fn later_query_overwrites_flag() {
    let q = Client::query::<Chart>().flag("mine").query("mine", "x");
    let wire = q.wire_query();
    assert_eq!(value_of(&wire, "mine"), Some("x".to_string()));
    assert_eq!(wire.len(), 2);
}

#[test]
fn order_and_page_num_are_filters() {
    let q = Client::query::<Chart>().order("-rating").page_num(20).query("search", "abc");
    let wire = q.wire_query();
    assert_eq!(value_of(&wire, "order"), Some("-rating".to_string()));
    assert_eq!(value_of(&wire, "page_num"), Some("20".to_string()));
    assert_eq!(value_of(&wire, "search"), Some("abc".to_string()));
    assert_eq!(value_of(&wire, "page"), Some("1".to_string()));
    assert_eq!(wire.len(), 4);
}

#[test]
fn explicit_page_filter_is_replaced_on_the_wire() {
    let q = Client::query::<Chart>().query("page", "9").page(4);
    let wire = q.wire_query();
    assert_eq!(value_of(&wire, "page"), Some("5".to_string()));
    assert_eq!(wire.len(), 1);
}

#[test]
fn detail_member_becomes_message() {
    let m = failure_message(r#"{"detail":"invalid token"}"#);
    assert_eq!(m, "request failed: invalid token");
}

#[test]
fn plain_text_becomes_message() {
    let m = failure_message("plain text error");
    assert_eq!(m, "request failed: plain text error");
}

#[test]
fn non_string_detail_keeps_raw_text() {
    let body = r#"{"detail":3}"#;
    assert_eq!(failure_message(body), format!("request failed: {body}"));
    let body = r#"["detail"]"#;
    assert_eq!(failure_message(body), format!("request failed: {body}"));
}

#[test]
fn success_statuses() {
    assert!(!is_success(199));
    assert!(is_success(200));
    assert!(is_success(204));
    assert!(is_success(299));
    assert!(!is_success(300));
    assert!(!is_success(404));
}

#[test]
fn recv_raw_classifies() {
    assert!(recv_raw(200, "").is_ok());
    match recv_raw(401, r#"{"detail":"invalid token"}"#) {
        Err(ClientError::Request { message }) => assert_eq!(message, "request failed: invalid token"),
        _ => panic!("expected a request error"),
    }
    match recv_raw(500, "oops") {
        Err(e) => assert_eq!(e.message(), "request failed: oops"),
        Ok(()) => panic!("expected a request error"),
    }
}

#[test]
fn error_messages() {
    assert_eq!(ClientError::NotFound.message(), "entry not found");
    assert_eq!(ClientError::InvalidHeader.message(), "failed to parse header value");
    assert_eq!(ClientError::MalformedResponse.message(), "malformed response");
}

#[test]
fn password_login_has_only_its_keys() {
    let p = LoginParams::Password { email: "a@b.c", password: "pw" };
    let fields = p.fields();
    assert_eq!(
        fields,
        vec![("email".to_string(), "a@b.c".to_string()), ("password".to_string(), "pw".to_string())]
    );
    assert_eq!(object_keys(&p.body()), vec!["email".to_string(), "password".to_string()]);
    let v: serde_json::Value = serde_json::from_str(&p.body()).unwrap();
    assert_eq!(v["email"], "a@b.c");
    assert_eq!(v["password"], "pw");
}

#[test]
fn refresh_login_has_only_its_key() {
    let p = LoginParams::RefreshToken { token: "rt" };
    assert_eq!(p.fields(), vec![("refreshToken".to_string(), "rt".to_string())]);
    assert_eq!(object_keys(&p.body()), vec!["refreshToken".to_string()]);
    let v: serde_json::Value = serde_json::from_str(&p.body()).unwrap();
    assert_eq!(v["refreshToken"], "rt");
}

#[test]
fn register_body_members() {
    let body = register_body("a@b.c", "alice", "pw\"q");
    let v: serde_json::Value = serde_json::from_str(&body).unwrap();
    assert_eq!(object_keys(&body), vec!["email".to_string(), "name".to_string(), "password".to_string()]);
    assert_eq!(v["name"], "alice");
    assert_eq!(v["password"], "pw\"q");
}

#[test]
fn tokens_are_read() {
    let t = parse_tokens(r#"{"token":"abc","refreshToken":"def","extra":1}"#).ok().unwrap();
    assert_eq!(t.token, "abc");
    assert_eq!(t.refresh_token, "def");
    assert!(matches!(parse_tokens(r#"{"token":"abc"}"#), Err(ClientError::MalformedResponse)));
    assert!(matches!(parse_tokens("not json"), Err(ClientError::MalformedResponse)));
}

#[test]
fn login_response_outcomes() {
    let ok = Client::login_response(200, r#"{"token":"t","refreshToken":"r"}"#).ok().unwrap();
    assert_eq!((ok.token.as_str(), ok.refresh_token.as_str()), ("t", "r"));
    match Client::login_response(400, r#"{"detail":"bad password"}"#) {
        Err(ClientError::Request { message }) => assert_eq!(message, "request failed: bad password"),
        _ => panic!("expected a request error"),
    }
}

#[test]
fn load_misses_then_hits_after_fetch() {
    let mut cache: ObjectCache<Chart> = ObjectCache::new();
    assert!(Client::load(&cache, 7).is_none());
    let fetched = Client::fetch(&mut cache, 7, Some(chart(7, "x"))).ok().unwrap();
    let first = Client::load(&cache, 7).unwrap();
    let second = Client::load(&cache, 7).unwrap();
    assert!(Arc::ptr_eq(&first, &second));
    assert!(Arc::ptr_eq(&fetched, &first));
    assert_eq!(*first, chart(7, "x"));
}

#[test]
fn fetch_of_absent_entry_is_not_found() {
    let mut cache: ObjectCache<Chart> = ObjectCache::new();
    Client::fetch(&mut cache, 1, Some(chart(1, "a"))).ok().unwrap();
    assert!(matches!(Client::fetch(&mut cache, 2, None), Err(ClientError::NotFound)));
    assert!(Client::load(&cache, 2).is_none());
    assert_eq!(*Client::load(&cache, 1).unwrap(), chart(1, "a"));
}

#[test]
fn cached_batch_loads_without_fetch() {
    let mut cache: ObjectCache<Chart> = ObjectCache::new();
    Client::cache_objects(&mut cache, vec![(1, chart(1, "a")), (2, chart(2, "b"))]);
    assert_eq!(*Client::load(&cache, 1).unwrap(), chart(1, "a"));
    assert_eq!(*Client::load(&cache, 2).unwrap(), chart(2, "b"));
    assert!(Client::load(&cache, 3).is_none());
}

#[test]
fn later_batch_entry_wins() {
    let mut cache: ObjectCache<Chart> = ObjectCache::new();
    Client::cache_objects(&mut cache, vec![(1, chart(1, "a")), (1, chart(1, "b"))]);
    assert_eq!(*Client::load(&cache, 1).unwrap(), chart(1, "b"));
}

#[test]
fn racing_fetches_keep_the_last_written() {
    let mut cache: ObjectCache<Chart> = ObjectCache::new();
    let early = Client::fetch(&mut cache, 5, Some(chart(5, "first"))).ok().unwrap();
    let late = Client::fetch(&mut cache, 5, Some(chart(5, "second"))).ok().unwrap();
    let now = Client::load(&cache, 5).unwrap();
    assert!(Arc::ptr_eq(&now, &late));
    assert_eq!(*early, chart(5, "first"));
    assert_eq!(*now, chart(5, "second"));
}

#[test]
fn headers_fall_back_to_default_language() {
    let h = build_headers(None, "zh-CN", None).ok().unwrap();
    assert_eq!(h.accept_language, "zh-CN");
    assert!(h.authorization.is_none());
    let h = build_headers(Some("en-US"), "zh-CN", Some("tok")).ok().unwrap();
    assert_eq!(h.accept_language, "en-US");
    assert_eq!(h.authorization, Some("Bearer tok".to_string()));
}

#[test]
fn invalid_header_values_are_refused() {
    assert!(matches!(build_headers(Some("en\nUS"), "zh-CN", None), Err(ClientError::InvalidHeader)));
    assert!(matches!(build_headers(None, "zh-CN", Some("a\u{7f}b")), Err(ClientError::InvalidHeader)));
    assert!(build_headers(Some("日本語"), "zh-CN", Some("a\tb")).is_ok());
}

#[test]
fn token_swap_replaces_or_keeps() {
    let mut active: Headers = build_headers(None, "zh-CN", None).ok().unwrap();
    set_access_token_sync(&mut active, None, "zh-CN", Some("new")).ok().unwrap();
    assert_eq!(active.authorization, Some("Bearer new".to_string()));
    assert!(set_access_token_sync(&mut active, None, "zh-CN", Some("bad\r")).is_err());
    assert_eq!(active.authorization, Some("Bearer new".to_string()));
    set_access_token_sync(&mut active, Some("en-US"), "zh-CN", None).ok().unwrap();
    assert_eq!(active.accept_language, "en-US");
    assert!(active.authorization.is_none());
}

#[test]
fn decimal_rendering() {
    assert_eq!(decimal(0), "0");
    assert_eq!(decimal(42), "42");
    assert_eq!(decimal(u64::MAX as u128), u64::MAX.to_string());
    assert_eq!(signed_decimal(-7), "-7");
    assert_eq!(signed_decimal(i64::MIN), i64::MIN.to_string());
    assert_eq!(signed_decimal(1000), "1000");
}

#[test]
fn paths_and_urls() {
    assert_eq!(Client::object_path("chart", 5), "/chart/5");
    assert_eq!(Client::object_path("user", -3), "/user/-3");
    assert_eq!(Client::list_path("record"), "/record");
    assert_eq!(Client::best_record_path(12), "/record/best/12");
    assert_eq!(Client::url(ME_PATH), format!("{API_URL}/me"));
}
