use vstd::prelude::*;

use crate::json::Json;
use crate::outcome::{shape_error, shape_error_text, Outcome, OutcomeModel};

verus! {

/// Base URL of the legacy backend; empty while that backend is disabled.
pub fn get_base_url() -> (r: String)
    ensures
        r@ == Seq::<char>::empty(),
{
    String::new()
}

/// Settings of the shared HTTP transport.
pub struct TransportConfig {
    /// Timeout of one request, in seconds.
    pub timeout_secs: u64,
    /// Whether invalid or self-signed certificates are accepted.
    pub accept_invalid_certs: bool,
}

impl TransportConfig {
    /// The process-wide settings: a ten-second timeout, and certificate
    /// validation off for compatibility with the backends' certificates.
    pub fn standard() -> (r: TransportConfig)
        ensures
            r.timeout_secs == 10,
            r.accept_invalid_certs,
    {
        TransportConfig { timeout_secs: 10, accept_invalid_certs: true }
    }
}

/// The URL of the tenant lookup for `account` under `base`.
pub fn tenant_lookup_url(base: &str, account: &str) -> (r: String)
    ensures
        r@ == base@ + "/user/getTenantId?account="@ + account@,
{
    String::from_str(base).concat("/user/getTenantId?account=").concat(account)
}

/// The query part that a two-factor code adds to the credential exchange.
pub open spec fn sms_part(sms_code: Option<String>) -> Seq<char> {
    match sms_code {
        Some(c) => "&smsCode="@ + c@,
        None => Seq::empty(),
    }
}

/// The URL of the credential exchange under `base`.
pub fn token_request_url(
    base: &str,
    tenant_id: &str,
    account: &str,
    password: &str,
    sms_code: &Option<String>,
) -> (r: String)
    ensures
        r@ == base@ + "/token?tenantId="@ + tenant_id@ + "&account="@ + account@ + "&password="@
            + password@ + "&type=password"@ + sms_part(*sms_code),
{
    let url = String::from_str(base).concat("/token?tenantId=").concat(tenant_id).concat(
        "&account=",
    ).concat(account).concat("&password=").concat(password).concat("&type=password");
    match sms_code {
        Some(c) => url.concat("&smsCode=").concat(c.as_str()),
        None => url,
    }
}

/// Body of a registration request.
pub struct RegisterRequest {
    pub tenant_id: String,
    pub account: String,
    pub password: String,
}

/// Body of a bug report.
pub struct BugReportRequest {
    pub api_key: Option<String>,
    pub app_version: String,
    pub os_version: String,
    pub device_model: String,
    pub cursor_version: String,
    pub bug_description: String,
    pub occurrence_time: String,
    pub screenshot_urls: Option<Vec<String>>,
    pub severity: String,
}

/// The session a login or registration hands out.
pub struct LoginResponse {
    pub api_key: Option<String>,
}

/// The result of an activation.
pub struct ActivateResponse {
    /// Expiry, in milliseconds since the Unix epoch.
    pub expire_time: i64,
    pub level: i32,
}

/// How long an activation lasts when the backend does not say: thirty days,
/// in milliseconds.
pub const ACTIVATION_PERIOD_MS: i64 = 2_592_000_000;

/// The tier an activation grants when the backend does not say.
pub const DEFAULT_LEVEL: i32 = 1;

/// The activation result for a `{code, success, data, msg}` outcome `o`
/// whose payload must be a boolean, at time `now_ms`.
pub open spec fn activation_of(o: OutcomeModel<Json>, now_ms: i64) -> Option<(int, int)> {
    if o.ok && o.data matches Some(Json::Bool(_)) {
        Some((now_ms + ACTIVATION_PERIOD_MS, DEFAULT_LEVEL as int))
    } else {
        None
    }
}

/// Turns the outcome of an activation call into an activation result. The
/// backend only confirms; the expiry is `now_ms` plus thirty days and the
/// tier is the default one.
pub fn activation_outcome(o: Outcome<Json>, now_ms: i64) -> (r: Outcome<ActivateResponse>)
    requires
        now_ms <= i64::MAX - ACTIVATION_PERIOD_MS,
    ensures
        r@.is_consistent(),
        r.code == o.code,
        match activation_of(o@, now_ms) {
            Some((expire, level)) => {
                &&& r.ok
                &&& r.message@ == o.message@
                &&& r.data matches Some(a) && a.expire_time == expire && a.level == level
            },
            None => !r.ok && r.data is None && r.message@ == (if o.ok {
                shape_error()
            } else {
                o.message@
            }),
        },
{
    if !o.ok {
        return Outcome { ok: false, code: o.code, message: o.message, data: None };
    }
    match o.data {
        Some(Json::Bool(_)) => Outcome {
            ok: true,
            code: o.code,
            message: o.message,
            data: Some(ActivateResponse { expire_time: now_ms + ACTIVATION_PERIOD_MS, level: DEFAULT_LEVEL }),
        },
        _ => Outcome { ok: false, code: o.code, message: shape_error_text(), data: None },
    }
}

/// The placeholder session token that a registration hands out; the
/// backend returns no real one at that time.
pub open spec fn registration_token() -> Seq<char> {
    "dummy_api_key"@
}

/// Turns the outcome of a registration call into a session.
pub fn registration_outcome(o: Outcome<Json>) -> (r: Outcome<LoginResponse>)
    ensures
        r@.is_consistent(),
        r.ok == o.ok,
        r.code == o.code,
        r.message@ == o.message@,
        o.ok ==> (r.data matches Some(l) && l.api_key matches Some(k) && k@ == registration_token()),
        !o.ok ==> r.data is None,
{
    if o.ok {
        let key = String::from_str("dummy_api_key");
        Outcome { ok: true, code: o.code, message: o.message, data: Some(LoginResponse { api_key: Some(key) }) }
    } else {
        Outcome { ok: false, code: o.code, message: o.message, data: None }
    }
}

} // verus!
