//! The ways in which acquiring or keeping a credential can fail.

use vstd::prelude::*;

verus! {

#[derive(Clone, Copy, Debug, PartialEq, Eq, Structural)]
pub enum AuthError {
    /// The configuration cannot be used: the redirect target is malformed,
    /// or twice the check interval does not fit the staleness threshold.
    Configuration,
    /// The local callback endpoint could not be bound.
    ListenerBind,
    /// The `state` of the redirect is not the token issued with the
    /// authorization request.
    CsrfMismatch,
    /// The remote token endpoint did not hand out a usable credential.
    Exchange,
    /// The configuration record could not be persisted.
    Persistence,
    /// No credential is available yet: startup has not completed.
    NotAvailable,
}

impl AuthError {
    pub open spec fn spec_message(self) -> Seq<char> {
        match self {
            AuthError::Configuration => "Invalid credential configuration"@,
            AuthError::ListenerBind => "Failed to setup oauth callback server"@,
            AuthError::CsrfMismatch => "State of the redirect does not match the issued token"@,
            AuthError::Exchange => "Failed to acquire token"@,
            AuthError::Persistence => "Failed to save the configuration"@,
            AuthError::NotAvailable => "No token available"@,
        }
    }

    /// A short description for logs and for the operator.
    pub fn message(&self) -> (text: &'static str)
        ensures
            text@ == self.spec_message(),
    {
        match self {
            AuthError::Configuration => "Invalid credential configuration",
            AuthError::ListenerBind => "Failed to setup oauth callback server",
            AuthError::CsrfMismatch => "State of the redirect does not match the issued token",
            AuthError::Exchange => "Failed to acquire token",
            AuthError::Persistence => "Failed to save the configuration",
            AuthError::NotAvailable => "No token available",
        }
    }
}

} // verus!
