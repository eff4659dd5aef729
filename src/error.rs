use vstd::prelude::*;

use crate::json::Json;
use crate::outcome::OutcomeModel;

verus! {

/// Why an operation failed.
pub enum AccessError {
    /// The request did not complete (network failure or timeout).
    Transport(String),
    /// The body is not JSON, or not the expected envelope.
    Parse(String),
    /// The envelope was read and reports failure; the backend's message.
    Backend(String),
    /// The tenant lookup answered HTTP 400.
    AccountNotFound,
    /// The envelope reports success but its payload has the wrong shape.
    MalformedResponse,
    /// The credential exchange payload holds no known token field.
    NoTokenField,
}

/// What an [`AccessError`] states, with its messages as characters.
pub ghost enum ErrorModel {
    Transport(Seq<char>),
    Parse(Seq<char>),
    Backend(Seq<char>),
    AccountNotFound,
    MalformedResponse,
    NoTokenField,
}

impl View for AccessError {
    type V = ErrorModel;

    open spec fn view(&self) -> ErrorModel {
        match self {
            AccessError::Transport(m) => ErrorModel::Transport(m@),
            AccessError::Parse(m) => ErrorModel::Parse(m@),
            AccessError::Backend(m) => ErrorModel::Backend(m@),
            AccessError::AccountNotFound => ErrorModel::AccountNotFound,
            AccessError::MalformedResponse => ErrorModel::MalformedResponse,
            AccessError::NoTokenField => ErrorModel::NoTokenField,
        }
    }
}

/// A string result with its error, both seen as characters.
pub open spec fn result_view(r: Result<String, AccessError>) -> Result<Seq<char>, ErrorModel> {
    match r {
        Ok(s) => Ok(s@),
        Err(e) => Err(e@),
    }
}

/// The error that a failed outcome stands for: a backend failure when an
/// envelope was read, a parse failure otherwise.
pub open spec fn failure_of(o: OutcomeModel<Json>) -> ErrorModel {
    match o.code {
        Some(_) => ErrorModel::Backend(o.message),
        None => ErrorModel::Parse(o.message),
    }
}

pub open spec fn message_of(e: ErrorModel) -> Seq<char> {
    match e {
        ErrorModel::Transport(m) => m,
        ErrorModel::Parse(m) => m,
        ErrorModel::Backend(m) => m,
        ErrorModel::AccountNotFound => "account does not exist"@,
        ErrorModel::MalformedResponse => "malformed response"@,
        ErrorModel::NoTokenField => "no token in response"@,
    }
}

impl AccessError {
    /// The user-facing message.
    pub fn message(&self) -> (r: String)
        ensures
            r@ == message_of(self@),
    {
        match self {
            AccessError::Transport(m) => m.clone(),
            AccessError::Parse(m) => m.clone(),
            AccessError::Backend(m) => m.clone(),
            AccessError::AccountNotFound => String::from_str("account does not exist"),
            AccessError::MalformedResponse => String::from_str("malformed response"),
            AccessError::NoTokenField => String::from_str("no token in response"),
        }
    }
}

} // verus!
