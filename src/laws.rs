use vstd::prelude::*;

use crate::error::ErrorModel;
use crate::json::Json;
use crate::error::failure_of;
use crate::login::{finish, login_begin, login_next, tenant_lookup_result, ActionModel, LoginEvent, LoginState};
use crate::outcome::{normalized, EnvelopeKind};

verus! {

/// Normalization is total: every parse result, envelope kind and HTTP
/// status gives exactly one outcome, and that outcome carries data if and
/// only if it is ok.
pub proof fn normalize_is_total(parsed: Result<Json, String>, kind: EnvelopeKind, status: u16)
    ensures
        normalized(parsed, kind, status).is_consistent(),
{
}

/// A tenant the caller supplies is used as it is: the login goes straight
/// to the credential exchange, with no lookup.
pub proof fn supplied_tenant_skips_lookup(tenant: String)
    ensures
        login_begin(Some(tenant)) == (LoginState::ExchangingCredentials, ActionModel::ExchangeCredentials(tenant@)),
{
}

/// When the credential exchange reports failure, the login ends with that
/// failure and no token is looked for.
pub proof fn failed_exchange_ends_login(status: u16, parsed: Result<Json, String>)
    requires
        !normalized(parsed, EnvelopeKind::Blade, status).ok,
    ensures
        login_next(LoginState::ExchangingCredentials, LoginEvent::Response(status, parsed)) == finish(
            Err(failure_of(normalized(parsed, EnvelopeKind::Blade, status))),
        ),
{
}

/// A tenant lookup answered with HTTP 400 means that the account does not
/// exist, whatever the body holds.
pub proof fn lookup_400_is_account_not_found(parsed: Result<Json, String>)
    ensures
        tenant_lookup_result(400, parsed) == Err::<Seq<char>, ErrorModel>(ErrorModel::AccountNotFound),
{
}

} // verus!
