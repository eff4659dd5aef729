use vstd::prelude::*;

use crate::error::{message_of, AccessError, ErrorModel};
use crate::json::{get_str, str_field, Json};
use crate::outcome::{normalize, normalized, EnvelopeKind, Outcome, OutcomeModel};

verus! {

/// The account a session token belongs to.
pub struct AccountDetail {
    pub email: String,
    pub user_id: String,
    pub token: String,
}

/// Whether the two-character delimiter `::` starts at `i` in `s`.
pub open spec fn is_delim_at(s: Seq<char>, i: int) -> bool {
    0 <= i && i + 2 <= s.len() && s[i] == ':' && s[i + 1] == ':'
}

/// The first position at or after `from` where the delimiter starts.
pub open spec fn next_delim(s: Seq<char>, from: int) -> Option<int>
    decreases s.len() - from,
{
    if from < 0 || from + 2 > s.len() {
        None
    } else if is_delim_at(s, from) {
        Some(from)
    } else {
        next_delim(s, from + 1)
    }
}

/// The first two parts of `s` split on the delimiter, or `None` when the
/// delimiter does not occur; parts after the second are dropped.
pub open spec fn composite_parts(s: Seq<char>) -> Option<(Seq<char>, Seq<char>)> {
    match next_delim(s, 0) {
        None => None,
        Some(d) => {
            let end = match next_delim(s, d + 2) {
                Some(e) => e,
                None => s.len() as int,
            };
            Some((s.subrange(0, d), s.subrange(d + 2, end)))
        },
    }
}

proof fn lemma_next_delim_bounds(s: Seq<char>, from: int)
    requires
        0 <= from,
    ensures
        next_delim(s, from) matches Some(d) ==> from <= d && is_delim_at(s, d),
    decreases s.len() - from,
{
    if from + 2 <= s.len() && !is_delim_at(s, from) {
        lemma_next_delim_bounds(s, from + 1);
    }
}

/// The first position at or after `from` where the delimiter starts.
pub fn find_delim(s: &str, from: usize) -> (r: Option<usize>)
    ensures
        match next_delim(s@, from as int) {
            Some(d) => r == Some(d as usize),
            None => r is None,
        },
{
    let n = s.unicode_len();
    let mut i: usize = from;
    while i < n && n - i >= 2
        invariant
            n == s@.len(),
            from <= i,
            next_delim(s@, from as int) == next_delim(s@, i as int),
        decreases n - i,
    {
        if s.get_char(i) == ':' && s.get_char(i + 1) == ':' {
            return Some(i);
        }
        i = i + 1;
    }
    None
}

/// Splits a composite `userId::token` value into its first two parts.
pub fn split_composite(s: &str) -> (r: Result<(String, String), AccessError>)
    ensures
        match composite_parts(s@) {
            Some((u, t)) => r matches Ok((ru, rt)) && ru@ == u && rt@ == t,
            None => r matches Err(e) && e@ == ErrorModel::MalformedResponse,
        },
{
    let n = s.unicode_len();
    proof {
        lemma_next_delim_bounds(s@, 0);
    }
    let d = match find_delim(s, 0) {
        Some(d) => d,
        None => return Err(AccessError::MalformedResponse),
    };
    proof {
        lemma_next_delim_bounds(s@, d + 2);
    }
    let end = match find_delim(s, d + 2) {
        Some(e) => e,
        None => n,
    };
    let user = String::from_str(s.substring_char(0, d));
    let token = String::from_str(s.substring_char(d + 2, end));
    Ok((user, token))
}

/// The account detail an account-info payload gives: its `email`, and its
/// `token` split into user id and session token.
pub open spec fn detail_of(info: Json) -> Option<(Seq<char>, Seq<char>, Seq<char>)> {
    match (str_field(info, "email"@), str_field(info, "token"@)) {
        (Some(email), Some(token)) => match composite_parts(token) {
            Some((u, t)) => Some((email, u, t)),
            None => None,
        },
        _ => None,
    }
}

/// Builds the account detail from an account-info payload.
pub fn account_detail(info: &Json) -> (r: Result<AccountDetail, AccessError>)
    ensures
        match detail_of(*info) {
            Some((e, u, t)) => r matches Ok(d) && d.email@ == e && d.user_id@ == u && d.token@ == t,
            None => r matches Err(e) && e@ == ErrorModel::MalformedResponse,
        },
{
    let email = match get_str(info, "email") {
        Some(e) => e.clone(),
        None => return Err(AccessError::MalformedResponse),
    };
    let composite = match get_str(info, "token") {
        Some(t) => t,
        None => return Err(AccessError::MalformedResponse),
    };
    match split_composite(composite.as_str()) {
        Ok((user_id, token)) => Ok(AccountDetail { email, user_id, token }),
        Err(e) => Err(e),
    }
}

/// Whether `r` is the outcome of an account-info response whose
/// `{status, message, data}` normalization is `o`.
pub open spec fn is_account_outcome(r: OutcomeModel<AccountDetail>, o: OutcomeModel<Json>) -> bool {
    if !o.ok {
        r == OutcomeModel::<AccountDetail> { ok: false, code: o.code, message: o.message, data: None }
    } else {
        match detail_of(o.data.unwrap()) {
            Some((e, u, t)) => {
                &&& r.ok
                &&& r.code == o.code
                &&& r.message == o.message
                &&& r.data matches Some(d) && d.email@ == e && d.user_id@ == u && d.token@ == t
            },
            None => r == OutcomeModel::<AccountDetail> {
                ok: false,
                code: o.code,
                message: message_of(ErrorModel::MalformedResponse),
                data: None,
            },
        }
    }
}

/// Reads an account-info response (a `{status, message, data}` envelope).
pub fn account_outcome(parsed: Result<Json, String>, status: u16) -> (r: Outcome<AccountDetail>)
    ensures
        is_account_outcome(r@, normalized(parsed, EnvelopeKind::Status, status)),
        r@.is_consistent(),
{
    let o = normalize(parsed, EnvelopeKind::Status, status);
    match o.data {
        None => Outcome { ok: false, code: o.code, message: o.message, data: None },
        Some(info) => match account_detail(&info) {
            Ok(d) => Outcome { ok: true, code: o.code, message: o.message, data: Some(d) },
            Err(e) => Outcome { ok: false, code: o.code, message: e.message(), data: None },
        },
    }
}

/// The cookie that carries a user id and session token to the usage
/// service: the two joined by the percent-encoded delimiter.
pub fn session_cookie(user_id: &str, token: &str) -> (r: String)
    ensures
        r@ == "WorkosCursorSessionToken="@ + user_id@ + "%3A%3A"@ + token@,
{
    String::from_str("WorkosCursorSessionToken=").concat(user_id).concat("%3A%3A").concat(token)
}

} // verus!
