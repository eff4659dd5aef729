//! Access layer for a multi-tenant identity service and a usage service:
//! envelope normalization, tenant resolution, the login state machine,
//! token extraction and composite-token handling, all over plain values.

pub mod json;
pub mod outcome;
pub mod error;
pub mod token;
pub mod login;
pub mod account;
pub mod backend;
pub mod laws;
