use cursor_access::account::{account_detail, account_outcome, session_cookie, split_composite};
use cursor_access::backend::{
    activation_outcome, get_base_url, registration_outcome, tenant_lookup_url, token_request_url,
    TransportConfig, ACTIVATION_PERIOD_MS,
};
use cursor_access::error::AccessError;
use cursor_access::json::{find_member, get_field, get_str, Json};
use cursor_access::login::{
    login_start, login_step, tenant_from_lookup, token_from_exchange, LoginAction, LoginEvent,
    LoginState,
};
use cursor_access::outcome::{decode_blade, decode_status, normalize, EnvelopeKind};
use cursor_access::token::extract_token;

fn s(v: &str) -> Json {
    Json::Str(v.to_string())
}

fn obj(members: Vec<(&str, Json)>) -> Json {
    Json::Object(members.into_iter().map(|(k, v)| (k.to_string(), v)).collect())
}

fn blade(code: i64, success: bool, data: Json, msg: &str) -> Json {
    obj(vec![("code", Json::Int(code)), ("success", Json::Bool(success)), ("data", data), ("msg", s(msg))])
}

#[test]
fn status_envelope_success_is_ok() {
    let body = obj(vec![("status", s("success")), ("message", s("fine")), ("data", Json::Int(7))]);
    let o = normalize(Ok(body), EnvelopeKind::Status, 200);
    assert!(o.ok);
    assert_eq!(o.code, None);
    assert_eq!(o.message, "fine");
    assert!(matches!(o.data, Some(Json::Int(7))));
}

#[test]
fn status_envelope_other_status_fails_without_data() {
    let body = obj(vec![("status", s("error")), ("message", s("nope")), ("data", Json::Int(7))]);
    let o = normalize(Ok(body), EnvelopeKind::Status, 200);
    assert!(!o.ok);
    assert_eq!(o.message, "nope");
    assert!(o.data.is_none());
}

#[test]
fn status_envelope_success_without_data_carries_null() {
    let body = obj(vec![("status", s("success")), ("message", s("m"))]);
    let o = normalize(Ok(body), EnvelopeKind::Status, 200);
    assert!(o.ok);
    assert!(matches!(o.data, Some(Json::Null)));
}

#[test]
fn status_envelope_missing_field_is_shape_error() {
    let body = obj(vec![("status", s("success"))]);
    let o = normalize(Ok(body), EnvelopeKind::Status, 200);
    assert!(!o.ok);
    assert_eq!(o.code, None);
    assert_eq!(o.message, "response body does not match the expected envelope");
    assert!(o.data.is_none());
}

#[test]
fn parse_failure_keeps_parser_message() {
    let o = normalize(Err("expected value at line 1 column 1".to_string()), EnvelopeKind::Blade, 200);
    assert!(!o.ok);
    assert_eq!(o.code, None);
    assert_eq!(o.message, "expected value at line 1 column 1");
    assert!(o.data.is_none());
}

#[test]
fn blade_envelope_success_and_200_is_ok() {
    let o = normalize(Ok(blade(200, true, s("x"), "done")), EnvelopeKind::Blade, 200);
    assert!(o.ok);
    assert_eq!(o.code, Some(200));
    assert_eq!(o.message, "done");
    assert!(matches!(o.data, Some(Json::Str(ref t)) if t == "x"));
}

#[test]
fn blade_envelope_success_with_other_code_fails() {
    let o = normalize(Ok(blade(201, true, s("x"), "odd")), EnvelopeKind::Blade, 200);
    assert!(!o.ok);
    assert_eq!(o.code, Some(201));
    assert_eq!(o.message, "odd");
    assert!(o.data.is_none());
}

#[test]
fn blade_envelope_without_msg_is_shape_error() {
    let body = obj(vec![("code", Json::Int(200)), ("success", Json::Bool(true)), ("data", Json::Null)]);
    let o = normalize(Ok(body), EnvelopeKind::Blade, 200);
    assert!(!o.ok);
    assert_eq!(o.code, None);
    assert_eq!(o.message, "response body does not match the expected envelope");
}

#[test]
fn bare_payload_ok_on_2xx() {
    let body = obj(vec![("used", Json::Int(3))]);
    let o = normalize(Ok(body), EnvelopeKind::Bare, 204);
    assert!(o.ok);
    assert_eq!(o.code, Some(204));
    let data = o.data.unwrap();
    assert!(matches!(get_field(&data, "used"), Some(Json::Int(3))));
}

#[test]
fn bare_payload_fails_outside_2xx() {
    let o = normalize(Ok(Json::Null), EnvelopeKind::Bare, 500);
    assert!(!o.ok);
    assert_eq!(o.code, Some(500));
    assert_eq!(o.message, "unexpected HTTP status");
    assert!(o.data.is_none());
}

#[test]
fn supplied_tenant_skips_lookup() {
    let (state, action) = login_start(Some("t1".to_string()));
    assert_eq!(state, LoginState::ExchangingCredentials);
    assert!(matches!(action, LoginAction::ExchangeCredentials(ref t) if t == "t1"));
}

#[test]
fn missing_tenant_starts_with_lookup() {
    let (state, action) = login_start(None);
    assert_eq!(state, LoginState::ResolvingTenant);
    assert!(matches!(action, LoginAction::LookupTenant));
}

#[test]
fn lookup_400_is_account_not_found_whatever_the_body() {
    let r = tenant_from_lookup(400, Ok(blade(200, true, s("t9"), "ok")));
    assert!(matches!(r, Err(AccessError::AccountNotFound)));
    let r = tenant_from_lookup(400, Err("garbage".to_string()));
    assert!(matches!(r, Err(AccessError::AccountNotFound)));
}

#[test]
fn lookup_failure_passes_backend_message() {
    let r = tenant_from_lookup(200, Ok(blade(500, false, Json::Null, "no such user")));
    assert!(matches!(r, Err(AccessError::Backend(ref m)) if m == "no such user"));
}

#[test]
fn lookup_with_non_string_tenant_is_malformed() {
    let r = tenant_from_lookup(200, Ok(blade(200, true, Json::Int(5), "ok")));
    assert!(matches!(r, Err(AccessError::MalformedResponse)));
}

#[test]
fn lookup_unparsable_body_is_parse_error() {
    let r = tenant_from_lookup(200, Err("EOF while parsing".to_string()));
    assert!(matches!(r, Err(AccessError::Parse(ref m)) if m == "EOF while parsing"));
}

#[test]
fn token_from_camel_case_field() {
    let r = extract_token(&obj(vec![("accessToken", s("abc"))]));
    assert_eq!(r.ok(), Some("abc".to_string()));
}

#[test]
fn token_from_snake_case_field() {
    let r = extract_token(&obj(vec![("access_token", s("xyz"))]));
    assert_eq!(r.ok(), Some("xyz".to_string()));
}

#[test]
fn token_missing_from_empty_payload() {
    let r = extract_token(&obj(vec![]));
    assert!(matches!(r, Err(AccessError::NoTokenField)));
}

#[test]
fn token_camel_case_field_comes_first() {
    let r = extract_token(&obj(vec![("access_token", s("old")), ("accessToken", s("new"))]));
    assert_eq!(r.ok(), Some("new".to_string()));
}

#[test]
fn token_field_that_is_not_a_string_is_skipped() {
    let r = extract_token(&obj(vec![("accessToken", Json::Int(1)), ("access_token", s("kept"))]));
    assert_eq!(r.ok(), Some("kept".to_string()));
}

#[test]
fn login_end_to_end() {
    let (state, action) = login_start(None);
    assert!(matches!(action, LoginAction::LookupTenant));
    let (state, action) = login_step(state, LoginEvent::Response(200, Ok(blade(200, true, s("t42"), "ok"))));
    assert_eq!(state, LoginState::ExchangingCredentials);
    assert!(matches!(action, LoginAction::ExchangeCredentials(ref t) if t == "t42"));
    let payload = obj(vec![("accessToken", s("tok-1"))]);
    let (state, action) = login_step(state, LoginEvent::Response(200, Ok(blade(200, true, payload, "ok"))));
    assert_eq!(state, LoginState::Done);
    assert!(matches!(action, LoginAction::Finish(Ok(ref t)) if t == "tok-1"));
}

#[test]
fn login_bad_password_is_backend_error() {
    let body = obj(vec![("success", Json::Bool(false)), ("code", Json::Int(401)), ("msg", s("bad password")), ("data", Json::Null)]);
    let (state, action) = login_step(LoginState::ExchangingCredentials, LoginEvent::Response(401, Ok(body)));
    assert_eq!(state, LoginState::Failed);
    assert!(matches!(action, LoginAction::Finish(Err(AccessError::Backend(ref m))) if m == "bad password"));
}

#[test]
fn login_transport_failure_ends_login() {
    let (state, action) = login_step(LoginState::ResolvingTenant, LoginEvent::TransportFailed("timed out".to_string()));
    assert_eq!(state, LoginState::Failed);
    assert!(matches!(action, LoginAction::Finish(Err(AccessError::Transport(ref m))) if m == "timed out"));
}

#[test]
fn exchange_with_non_object_payload_is_malformed() {
    let r = token_from_exchange(200, Ok(blade(200, true, s("tok"), "ok")));
    assert!(matches!(r, Err(AccessError::MalformedResponse)));
}

#[test]
fn exchange_without_token_field() {
    let r = token_from_exchange(200, Ok(blade(200, true, obj(vec![("refresh", s("r"))]), "ok")));
    assert!(matches!(r, Err(AccessError::NoTokenField)));
}

#[test]
fn composite_token_splits_in_two() {
    let r = split_composite("user-123::sess-abc");
    assert_eq!(r.ok(), Some(("user-123".to_string(), "sess-abc".to_string())));
}

#[test]
fn composite_token_without_delimiter_is_malformed() {
    let r = split_composite("user-123sess-abc");
    assert!(matches!(r, Err(AccessError::MalformedResponse)));
}

#[test]
fn composite_token_extra_parts_are_dropped() {
    let r = split_composite("a::b::c");
    assert_eq!(r.ok(), Some(("a".to_string(), "b".to_string())));
    let r = split_composite("a:::b");
    assert_eq!(r.ok(), Some(("a".to_string(), ":b".to_string())));
}

#[test]
fn account_detail_from_payload() {
    let info = obj(vec![("email", s("a@b.c")), ("token", s("user-123::sess-abc"))]);
    let d = account_detail(&info).ok().unwrap();
    assert_eq!(d.email, "a@b.c");
    assert_eq!(d.user_id, "user-123");
    assert_eq!(d.token, "sess-abc");
}

#[test]
fn account_outcome_with_bad_token_fails() {
    let info = obj(vec![("email", s("a@b.c")), ("token", s("plain"))]);
    let body = obj(vec![("status", s("success")), ("message", s("ok")), ("data", info)]);
    let o = account_outcome(Ok(body), 200);
    assert!(!o.ok);
    assert_eq!(o.message, "malformed response");
    assert!(o.data.is_none());
}

#[test]
fn account_outcome_success() {
    let info = obj(vec![("email", s("a@b.c")), ("token", s("u::t"))]);
    let body = obj(vec![("status", s("success")), ("message", s("ok")), ("data", info)]);
    let o = account_outcome(Ok(body), 200);
    assert!(o.ok);
    let d = o.data.unwrap();
    assert_eq!(d.user_id, "u");
    assert_eq!(d.token, "t");
}

#[test]
fn cookie_joins_user_and_token() {
    assert_eq!(session_cookie("user-1", "tok"), "WorkosCursorSessionToken=user-1%3A%3Atok");
}

#[test]
fn lookup_url_names_account() {
    assert_eq!(tenant_lookup_url("http://h/api", "bob"), "http://h/api/user/getTenantId?account=bob");
}

#[test]
fn token_url_with_and_without_sms_code() {
    assert_eq!(
        token_request_url("http://h", "t1", "bob", "pw", &None),
        "http://h/token?tenantId=t1&account=bob&password=pw&type=password"
    );
    assert_eq!(
        token_request_url("http://h", "t1", "bob", "pw", &Some("123456".to_string())),
        "http://h/token?tenantId=t1&account=bob&password=pw&type=password&smsCode=123456"
    );
}

#[test]
fn activation_adds_thirty_days() {
    let o = normalize(Ok(blade(200, true, Json::Bool(true), "activated")), EnvelopeKind::Blade, 200);
    let r = activation_outcome(o, 1_000);
    assert!(r.ok);
    assert_eq!(r.message, "activated");
    let a = r.data.unwrap();
    assert_eq!(a.expire_time, 1_000 + 2_592_000_000);
    assert_eq!(ACTIVATION_PERIOD_MS, 30 * 24 * 60 * 60 * 1000);
    assert_eq!(a.level, 1);
}

#[test]
fn activation_failure_keeps_message() {
    let o = normalize(Ok(blade(400, false, Json::Bool(false), "card used")), EnvelopeKind::Blade, 200);
    let r = activation_outcome(o, 0);
    assert!(!r.ok);
    assert_eq!(r.message, "card used");
    assert!(r.data.is_none());
}

#[test]
fn registration_hands_out_placeholder() {
    let o = normalize(Ok(blade(200, true, Json::Null, "registered")), EnvelopeKind::Blade, 200);
    let r = registration_outcome(o);
    assert!(r.ok);
    assert_eq!(r.message, "registered");
    assert_eq!(r.data.unwrap().api_key, Some("dummy_api_key".to_string()));
}

#[test]
fn error_messages() {
    assert_eq!(AccessError::AccountNotFound.message(), "account does not exist");
    assert_eq!(AccessError::NoTokenField.message(), "no token in response");
    assert_eq!(AccessError::Backend("x".to_string()).message(), "x");
}

#[test]
fn base_url_is_empty() {
    assert_eq!(get_base_url(), "");
}

#[test]
fn transport_settings() {
    let c = TransportConfig::standard();
    assert_eq!(c.timeout_secs, 10);
    assert!(c.accept_invalid_certs);
}

#[test]
fn decode_blade_reads_every_field() {
    let e = decode_blade(blade(401, false, s("d"), "why")).ok().unwrap();
    assert_eq!(e.code, 401);
    assert!(!e.success);
    assert_eq!(e.msg, "why");
    assert!(matches!(e.data, Json::Str(ref t) if t == "d"));
}

#[test]
fn decode_blade_rejects_code_outside_i32() {
    let r = decode_blade(blade(5_000_000_000, true, Json::Null, "m"));
    assert!(r.is_err());
}

#[test]
fn decode_status_treats_null_data_as_absent() {
    let body = obj(vec![("status", s("success")), ("message", s("m")), ("data", Json::Null)]);
    let e = decode_status(body).ok().unwrap();
    assert_eq!(e.status, "success");
    assert!(e.data.is_none());
}

#[test]
fn first_member_wins_on_repeated_name() {
    let body = obj(vec![("k", s("first")), ("k", s("second"))]);
    assert_eq!(get_str(&body, "k").map(|v| v.as_str()), Some("first"));
    if let Json::Object(entries) = &body {
        assert_eq!(find_member(entries, "k"), Some(0));
        assert_eq!(find_member(entries, "absent"), None);
    }
}
