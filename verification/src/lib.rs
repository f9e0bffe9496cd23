//! Onboarding orchestration for an edge device ("holoport").
//!
//! The library holds the decision logic of the onboarding run: the
//! pre-flight key-consistency check, the membrane-proof registration
//! protocol, the overlay-network registration protocol, the retry
//! backoff controller, and the phase sequencing that ties them
//! together.  Network and file access stay outside; callers hand the
//! library plain values (environment variable contents, file bytes,
//! HTTP outcomes) and receive payloads, marker contents and decisions
//! back.

use vstd::prelude::*;
use vstd::string::*;

pub mod config;
pub mod keys;
pub mod options;
pub mod orchestration;
pub mod overlay;
pub mod registration;
pub mod retry;
pub mod validation;

verus! {

/// The failures an onboarding run can end in.
#[derive(Debug)]
pub enum AuthError {
    /// The configuration format does not support the requested operation.
    ConfigVersionError,
    /// The registration authority rejected the registration payload.
    RegistrationError(String),
    /// The overlay-network registration attempt failed; retryable.
    ZtRegistrationError(String),
    /// The identity-consistency precondition failed or the
    /// configuration could not be read.
    InitializationError(String),
}

/// The human-readable message each error is reported with.
pub open spec fn auth_error_message(e: AuthError) -> Seq<char> {
    match e {
        AuthError::ConfigVersionError => "Error: Invalid config version used. please upgrade to hpos-config v2"@,
        AuthError::RegistrationError(m) => "Registration Error: "@ + m@,
        AuthError::ZtRegistrationError(m) => "ZtRegistration Error: "@ + m@,
        AuthError::InitializationError(m) => "InitializationError Error: "@ + m@,
    }
}

impl AuthError {
    /// The message this error is logged and reported with.
    pub fn message(&self) -> (r: String)
        ensures
            r@ == auth_error_message(*self),
    {
        match self {
            AuthError::ConfigVersionError => "Error: Invalid config version used. please upgrade to hpos-config v2".to_owned(),
            AuthError::RegistrationError(m) => "Registration Error: ".to_owned().concat(m.as_str()),
            AuthError::ZtRegistrationError(m) => "ZtRegistration Error: ".to_owned().concat(m.as_str()),
            AuthError::InitializationError(m) => "InitializationError Error: ".to_owned().concat(m.as_str()),
        }
    }
}

} // verus!
