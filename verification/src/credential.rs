//! Credentials and the freshness policy applied to them.

use vstd::prelude::*;

verus! {

/// Mathematical view of an optional string.
pub open spec fn opt_str_view(s: Option<String>) -> Option<Seq<char>> {
    match s {
        Some(text) => Some(text@),
        None => None,
    }
}

/// Copies an optional string.
pub fn clone_opt_string(s: &Option<String>) -> (copy: Option<String>)
    ensures
        copy == *s,
        opt_str_view(copy) == opt_str_view(*s),
{
    match s {
        Some(text) => Some(text.clone()),
        None => None,
    }
}

/// An access credential: the secret that authenticates calls, and the
/// optional secret that lets it be renewed silently.
#[derive(Debug, PartialEq, Eq)]
pub struct Credential {
    pub access_token: String,
    pub refresh_token: Option<String>,
}

/// What a [`Credential`] holds, as plain sequences of characters.
pub struct CredentialView {
    pub access_token: Seq<char>,
    pub refresh_token: Option<Seq<char>>,
}

impl CredentialView {
    /// A credential can authenticate a call only with a non-empty access token.
    pub open spec fn is_usable(self) -> bool {
        self.access_token.len() > 0
    }
}

impl View for Credential {
    type V = CredentialView;

    open spec fn view(&self) -> CredentialView {
        CredentialView {
            access_token: self.access_token@,
            refresh_token: opt_str_view(self.refresh_token),
        }
    }
}

impl Clone for Credential {
    fn clone(&self) -> (copy: Self)
        ensures
            copy == *self,
            copy@ == self@,
    {
        Credential {
            access_token: self.access_token.clone(),
            refresh_token: clone_opt_string(&self.refresh_token),
        }
    }
}

impl Credential {
    pub fn new(access_token: String, refresh_token: Option<String>) -> (credential: Credential)
        ensures
            credential.access_token == access_token,
            credential.refresh_token == refresh_token,
    {
        Credential { access_token, refresh_token }
    }

    /// Whether the access token is non-empty.
    pub fn is_usable(&self) -> (usable: bool)
        ensures
            usable == self@.is_usable(),
    {
        !self.access_token.as_str().is_empty()
    }
}

/// View of an optional credential.
pub open spec fn opt_credential_view(c: Option<Credential>) -> Option<CredentialView> {
    match c {
        Some(credential) => Some(credential@),
        None => None,
    }
}

/// Copies an optional credential.
pub fn clone_opt_credential(c: &Option<Credential>) -> (copy: Option<Credential>)
    ensures
        copy == *c,
        opt_credential_view(copy) == opt_credential_view(*c),
{
    match c {
        Some(credential) => Some(credential.clone()),
        None => None,
    }
}

/// What the remote provider answered when asked about a credential.
#[derive(Clone, Copy, Debug, PartialEq, Eq, Structural)]
pub enum Validation {
    /// The provider could not be reached, or it reported the credential
    /// revoked or expired.
    Rejected,
    /// The credential is valid for another `expires_in` seconds.
    Valid { expires_in: u64 },
}

/// How a credential stands against the staleness threshold.
#[derive(Clone, Copy, Debug, PartialEq, Eq, Structural)]
pub enum Freshness {
    /// The remaining lifetime exceeds the threshold.
    Fresh,
    /// The remaining lifetime is positive but does not exceed the threshold.
    Stale,
    /// Validation failed, or no lifetime remains.
    Invalid,
}

/// The freshness of a credential whose validation gave `validation`, under
/// a staleness threshold of `threshold` seconds.
pub open spec fn freshness(validation: Validation, threshold: u64) -> Freshness {
    match validation {
        Validation::Rejected => Freshness::Invalid,
        Validation::Valid { expires_in } => if expires_in == 0 {
            Freshness::Invalid
        } else if expires_in <= threshold {
            Freshness::Stale
        } else {
            Freshness::Fresh
        },
    }
}

/// Whether a credential with this validation outcome has to be replaced:
/// exactly when it is not fresh.
pub open spec fn must_reacquire(validation: Validation, threshold: u64) -> bool {
    match validation {
        Validation::Rejected => true,
        Validation::Valid { expires_in } => expires_in <= threshold,
    }
}

/// Classifies a validation outcome against the staleness threshold.
pub fn classify(validation: Validation, threshold: u64) -> (class: Freshness)
    ensures
        class == freshness(validation, threshold),
        (class == Freshness::Fresh) == !must_reacquire(validation, threshold),
{
    match validation {
        Validation::Rejected => Freshness::Invalid,
        Validation::Valid { expires_in } => {
            if expires_in == 0 {
                Freshness::Invalid
            } else if expires_in <= threshold {
                Freshness::Stale
            } else {
                Freshness::Fresh
            }
        },
    }
}

} // verus!
