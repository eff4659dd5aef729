use vstd::prelude::*;

use crate::error::{failure_of, result_view, AccessError, ErrorModel};
use crate::json::Json;
use crate::outcome::{normalize, normalized, EnvelopeKind, Outcome};
use crate::token::{extract_token, token_of};

verus! {

/// What a user supplies to log in.
pub struct Credentials {
    pub account: String,
    pub password: String,
    pub tenant_id: Option<String>,
    pub sms_code: Option<String>,
    pub device_id: String,
}

/// The error a failed outcome stands for.
pub fn outcome_failure(o: Outcome<Json>) -> (e: AccessError)
    ensures
        e@ == failure_of(o@),
{
    match o.code {
        Some(_) => AccessError::Backend(o.message),
        None => AccessError::Parse(o.message),
    }
}

/// The tenant id that a tenant-lookup response gives.
pub open spec fn tenant_lookup_result(status: u16, parsed: Result<Json, String>) -> Result<Seq<char>, ErrorModel> {
    let o = normalized(parsed, EnvelopeKind::Blade, status);
    if status == 400 {
        Err(ErrorModel::AccountNotFound)
    } else if !o.ok {
        Err(failure_of(o))
    } else {
        match o.data {
            Some(Json::Str(t)) => Ok(t@),
            _ => Err(ErrorModel::MalformedResponse),
        }
    }
}

/// Reads a tenant-lookup response: HTTP 400 means the account does not
/// exist, whatever the body; otherwise the `{code, success, data, msg}`
/// envelope must report success and carry the tenant id as a string.
pub fn tenant_from_lookup(status: u16, parsed: Result<Json, String>) -> (r: Result<String, AccessError>)
    ensures
        result_view(r) == tenant_lookup_result(status, parsed),
{
    if status == 400 {
        return Err(AccessError::AccountNotFound);
    }
    let o = normalize(parsed, EnvelopeKind::Blade, status);
    if !o.ok {
        return Err(outcome_failure(o));
    }
    match o.data {
        Some(Json::Str(t)) => Ok(t),
        _ => Err(AccessError::MalformedResponse),
    }
}

/// The session token that a credential-exchange response gives.
pub open spec fn exchange_result(status: u16, parsed: Result<Json, String>) -> Result<Seq<char>, ErrorModel> {
    let o = normalized(parsed, EnvelopeKind::Blade, status);
    if !o.ok {
        Err(failure_of(o))
    } else {
        match o.data {
            Some(Json::Object(entries)) => match token_of(Json::Object(entries)) {
                Some(t) => Ok(t),
                None => Err(ErrorModel::NoTokenField),
            },
            _ => Err(ErrorModel::MalformedResponse),
        }
    }
}

/// Reads a credential-exchange response: the `{code, success, data, msg}`
/// envelope must report success with an object payload, from which the
/// session token is extracted.
pub fn token_from_exchange(status: u16, parsed: Result<Json, String>) -> (r: Result<String, AccessError>)
    ensures
        result_view(r) == exchange_result(status, parsed),
{
    let o = normalize(parsed, EnvelopeKind::Blade, status);
    if !o.ok {
        return Err(outcome_failure(o));
    }
    match o.data {
        Some(payload) => match payload {
            Json::Object(_) => extract_token(&payload),
            _ => Err(AccessError::MalformedResponse),
        },
        None => Err(AccessError::MalformedResponse),
    }
}

/// Where a login stands.
#[derive(Clone, Copy, PartialEq, Eq, Structural, Debug)]
pub enum LoginState {
    /// Waiting for the tenant lookup.
    ResolvingTenant,
    /// Waiting for the credential exchange.
    ExchangingCredentials,
    /// Finished with a session token.
    Done,
    /// Finished with an error.
    Failed,
}

/// What the caller performs next for a login.
pub enum LoginAction {
    /// Look up the tenant of the account.
    LookupTenant,
    /// Exchange the credentials within the given tenant.
    ExchangeCredentials(String),
    /// The login is over, with this result.
    Finish(Result<String, AccessError>),
}

/// What came back from the action last performed.
pub enum LoginEvent {
    /// A response, with its HTTP status and its body's JSON parse.
    Response(u16, Result<Json, String>),
    /// The request failed before a response arrived.
    TransportFailed(String),
}

/// What a [`LoginAction`] states, with its texts as characters.
pub ghost enum ActionModel {
    LookupTenant,
    ExchangeCredentials(Seq<char>),
    Finish(Result<Seq<char>, ErrorModel>),
}

impl View for LoginAction {
    type V = ActionModel;

    open spec fn view(&self) -> ActionModel {
        match self {
            LoginAction::LookupTenant => ActionModel::LookupTenant,
            LoginAction::ExchangeCredentials(t) => ActionModel::ExchangeCredentials(t@),
            LoginAction::Finish(r) => ActionModel::Finish(result_view(*r)),
        }
    }
}

/// The state and action a login starts with.
pub open spec fn login_begin(supplied_tenant: Option<String>) -> (LoginState, ActionModel) {
    match supplied_tenant {
        Some(t) => (LoginState::ExchangingCredentials, ActionModel::ExchangeCredentials(t@)),
        None => (LoginState::ResolvingTenant, ActionModel::LookupTenant),
    }
}

/// Where a finished step leads.
pub open spec fn finish(r: Result<Seq<char>, ErrorModel>) -> (LoginState, ActionModel) {
    match r {
        Ok(_) => (LoginState::Done, ActionModel::Finish(r)),
        Err(_) => (LoginState::Failed, ActionModel::Finish(r)),
    }
}

/// The state and action that follow `event` in `state`.
pub open spec fn login_next(state: LoginState, event: LoginEvent) -> (LoginState, ActionModel) {
    match event {
        LoginEvent::TransportFailed(m) => finish(Err(ErrorModel::Transport(m@))),
        LoginEvent::Response(status, parsed) => if state == LoginState::ResolvingTenant {
            match tenant_lookup_result(status, parsed) {
                Ok(t) => (LoginState::ExchangingCredentials, ActionModel::ExchangeCredentials(t)),
                Err(e) => finish(Err(e)),
            }
        } else {
            finish(exchange_result(status, parsed))
        },
    }
}

/// Starts a login: a tenant the caller supplies is used as it is, with no
/// lookup; otherwise the tenant is looked up first.
pub fn login_start(supplied_tenant: Option<String>) -> (r: (LoginState, LoginAction))
    ensures
        (r.0, r.1@) == login_begin(supplied_tenant),
{
    match supplied_tenant {
        Some(t) => (LoginState::ExchangingCredentials, LoginAction::ExchangeCredentials(t)),
        None => (LoginState::ResolvingTenant, LoginAction::LookupTenant),
    }
}

fn finish_with(r: Result<String, AccessError>) -> (out: (LoginState, LoginAction))
    ensures
        (out.0, out.1@) == finish(result_view(r)),
{
    match r {
        Ok(_) => (LoginState::Done, LoginAction::Finish(r)),
        Err(_) => (LoginState::Failed, LoginAction::Finish(r)),
    }
}

/// Advances a login that waits for a response. No step is retried: a
/// transport failure or any error ends the login at once.
pub fn login_step(state: LoginState, event: LoginEvent) -> (r: (LoginState, LoginAction))
    requires
        state == LoginState::ResolvingTenant || state == LoginState::ExchangingCredentials,
    ensures
        (r.0, r.1@) == login_next(state, event),
{
    match event {
        LoginEvent::TransportFailed(m) => finish_with(Err(AccessError::Transport(m))),
        LoginEvent::Response(status, parsed) => match state {
            LoginState::ResolvingTenant => match tenant_from_lookup(status, parsed) {
                Ok(t) => (LoginState::ExchangingCredentials, LoginAction::ExchangeCredentials(t)),
                Err(e) => finish_with(Err(e)),
            },
            _ => finish_with(token_from_exchange(status, parsed)),
        },
    }
}

} // verus!
