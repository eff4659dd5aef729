use vstd::prelude::*;

use crate::json::{
    bool_field, field, find_member, get_bool, get_int, get_str, int_field, str_field, Json,
};

verus! {

/// The canonical result of one backend call.
///
/// `code` is present exactly when an envelope was read (the envelope's own
/// code, or the HTTP status for a bare payload); `data` is present exactly
/// when `ok` holds.
pub struct Outcome<T> {
    pub ok: bool,
    pub code: Option<i64>,
    pub message: String,
    pub data: Option<T>,
}

/// What an [`Outcome`] states, with its message as characters.
pub ghost struct OutcomeModel<T> {
    pub ok: bool,
    pub code: Option<i64>,
    pub message: Seq<char>,
    pub data: Option<T>,
}

impl<T> OutcomeModel<T> {
    /// Data is carried exactly by an ok outcome.
    pub open spec fn is_consistent(self) -> bool {
        self.ok <==> self.data is Some
    }
}

impl<T> View for Outcome<T> {
    type V = OutcomeModel<T>;

    open spec fn view(&self) -> OutcomeModel<T> {
        OutcomeModel { ok: self.ok, code: self.code, message: self.message@, data: self.data }
    }
}

/// The envelope a backend wraps its payload in; chosen by the caller, never
/// guessed from the body.
#[derive(Clone, Copy, PartialEq, Eq, Structural, Debug)]
pub enum EnvelopeKind {
    /// `{status, message, data}`, ok when `status` is `"success"`.
    Status,
    /// `{code, success, data, msg}`, ok when `success` holds and `code` is 200.
    Blade,
    /// The payload itself, ok on a 2xx HTTP status.
    Bare,
}

/// The `{status, message, data}` envelope.
pub struct ApiResponse<T> {
    pub status: String,
    pub message: String,
    pub data: Option<T>,
}

/// The `{code, success, data, msg}` envelope.
pub struct BladeResponse<T> {
    pub code: i32,
    pub success: bool,
    pub data: T,
    pub msg: String,
}

/// Message of an outcome whose body parsed but has not the envelope's shape.
pub open spec fn shape_error() -> Seq<char> {
    "response body does not match the expected envelope"@
}

/// Message of a bare payload that came with a status outside 2xx.
pub open spec fn status_error() -> Seq<char> {
    "unexpected HTTP status"@
}

pub open spec fn success_word() -> Seq<char> {
    "success"@
}

/// Whether `body` has the `{status, message, data}` shape.
pub open spec fn is_status_envelope(body: Json) -> bool {
    str_field(body, "status"@) is Some && str_field(body, "message"@) is Some
}

/// The optional `data` member of a `{status, message, data}` envelope; a
/// `null` counts as absent.
pub open spec fn status_data(body: Json) -> Option<Json> {
    match field(body, "data"@) {
        Some(Json::Null) => None,
        d => d,
    }
}

/// Whether `body` has the `{code, success, data, msg}` shape.
pub open spec fn is_blade_envelope(body: Json) -> bool {
    &&& int_field(body, "code"@) matches Some(c) && i32::MIN <= c <= i32::MAX
    &&& bool_field(body, "success"@) is Some
    &&& str_field(body, "msg"@) is Some
    &&& field(body, "data"@) is Some
}

pub open spec fn failed<T>(code: Option<i64>, message: Seq<char>) -> OutcomeModel<T> {
    OutcomeModel { ok: false, code, message, data: None }
}

/// The outcome of a body of the given envelope kind that came with HTTP
/// status `status`; `parsed` is the JSON parse of the body or the parser's
/// message.
pub open spec fn normalized(parsed: Result<Json, String>, kind: EnvelopeKind, status: u16) -> OutcomeModel<Json> {
    match parsed {
        Err(m) => failed(None, m@),
        Ok(body) => match kind {
            EnvelopeKind::Status => if !is_status_envelope(body) {
                failed(None, shape_error())
            } else if str_field(body, "status"@) == Some(success_word()) {
                OutcomeModel {
                    ok: true,
                    code: None,
                    message: str_field(body, "message"@).unwrap(),
                    data: Some(
                        match status_data(body) {
                            Some(d) => d,
                            None => Json::Null,
                        },
                    ),
                }
            } else {
                failed(None, str_field(body, "message"@).unwrap())
            },
            EnvelopeKind::Blade => if !is_blade_envelope(body) {
                failed(None, shape_error())
            } else if bool_field(body, "success"@) == Some(true) && int_field(body, "code"@) == Some(200i64) {
                OutcomeModel {
                    ok: true,
                    code: Some(200),
                    message: str_field(body, "msg"@).unwrap(),
                    data: field(body, "data"@),
                }
            } else {
                failed(int_field(body, "code"@), str_field(body, "msg"@).unwrap())
            },
            EnvelopeKind::Bare => if 200 <= status < 300 {
                OutcomeModel { ok: true, code: Some(status as i64), message: Seq::empty(), data: Some(body) }
            } else {
                failed(Some(status as i64), status_error())
            },
        },
    }
}

/// The text of [`shape_error`].
pub fn shape_error_text() -> (r: String)
    ensures
        r@ == shape_error(),
{
    String::from_str("response body does not match the expected envelope")
}

/// Takes the `{status, message, data}` envelope apart.
pub fn decode_status(body: Json) -> (r: Result<ApiResponse<Json>, String>)
    ensures
        r is Ok <==> is_status_envelope(body),
        r matches Ok(e) ==> e.status@ == str_field(body, "status"@).unwrap()
            && e.message@ == str_field(body, "message"@).unwrap() && e.data == status_data(body),
        r matches Err(m) ==> m@ == shape_error(),
{
    let status = match get_str(&body, "status") {
        Some(s) => s.clone(),
        None => return Err(shape_error_text()),
    };
    let message = match get_str(&body, "message") {
        Some(s) => s.clone(),
        None => return Err(shape_error_text()),
    };
    let data = match body {
        Json::Object(mut entries) => match find_member(&entries, "data") {
            Some(i) => {
                let (_, d) = entries.remove(i);
                match d {
                    Json::Null => None,
                    d => Some(d),
                }
            },
            None => None,
        },
        _ => None,
    };
    Ok(ApiResponse { status, message, data })
}

/// Takes the `{code, success, data, msg}` envelope apart.
pub fn decode_blade(body: Json) -> (r: Result<BladeResponse<Json>, String>)
    ensures
        r is Ok <==> is_blade_envelope(body),
        r matches Ok(e) ==> Some(e.code as i64) == int_field(body, "code"@)
            && Some(e.success) == bool_field(body, "success"@)
            && Some(e.msg@) == str_field(body, "msg"@)
            && Some(e.data) == field(body, "data"@),
        r matches Err(m) ==> m@ == shape_error(),
{
    let code: i32 = match get_int(&body, "code") {
        Some(c) => if i32::MIN as i64 <= c && c <= i32::MAX as i64 {
            c as i32
        } else {
            return Err(shape_error_text());
        },
        None => return Err(shape_error_text()),
    };
    let success = match get_bool(&body, "success") {
        Some(b) => b,
        None => return Err(shape_error_text()),
    };
    let msg = match get_str(&body, "msg") {
        Some(s) => s.clone(),
        None => return Err(shape_error_text()),
    };
    match body {
        Json::Object(mut entries) => match find_member(&entries, "data") {
            Some(i) => {
                let (_, data) = entries.remove(i);
                Ok(BladeResponse { code, success, data, msg })
            },
            None => Err(shape_error_text()),
        },
        _ => Err(shape_error_text()),
    }
}

/// Projects one response body onto the canonical [`Outcome`].
///
/// `parsed` is the JSON parse of the body, or the parser's message when it
/// did not parse; `status` is the HTTP status the body came with. Every
/// combination gives exactly one outcome, and `data` is present exactly
/// when the outcome is ok.
pub fn normalize(parsed: Result<Json, String>, kind: EnvelopeKind, status: u16) -> (r: Outcome<Json>)
    ensures
        r@ == normalized(parsed, kind, status),
        r@.is_consistent(),
{
    let body = match parsed {
        Err(m) => return Outcome { ok: false, code: None, message: m, data: None },
        Ok(body) => body,
    };
    match kind {
        EnvelopeKind::Status => match decode_status(body) {
            Err(m) => Outcome { ok: false, code: None, message: m, data: None },
            Ok(e) => {
                let success = String::from_str("success");
                if e.status == success {
                    let data = match e.data {
                        Some(d) => d,
                        None => Json::Null,
                    };
                    Outcome { ok: true, code: None, message: e.message, data: Some(data) }
                } else {
                    Outcome { ok: false, code: None, message: e.message, data: None }
                }
            },
        },
        EnvelopeKind::Blade => match decode_blade(body) {
            Err(m) => Outcome { ok: false, code: None, message: m, data: None },
            Ok(e) => if e.success && e.code == 200 {
                Outcome { ok: true, code: Some(200), message: e.msg, data: Some(e.data) }
            } else {
                Outcome { ok: false, code: Some(e.code as i64), message: e.msg, data: None }
            },
        },
        EnvelopeKind::Bare => if 200 <= status && status < 300 {
            Outcome { ok: true, code: Some(status as i64), message: String::new(), data: Some(body) }
        } else {
            Outcome {
                ok: false,
                code: Some(status as i64),
                message: String::from_str("unexpected HTTP status"),
                data: None,
            }
        },
    }
}

} // verus!
