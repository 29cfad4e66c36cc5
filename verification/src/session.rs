//! One interactive authorization attempt: the token issued with the
//! authorization request, and the redirect that answers it.

use vstd::prelude::*;
use crate::credential::{clone_opt_string, opt_str_view};
use crate::error::AuthError;

verus! {

/// The state of one authorization attempt. It lives from the moment the
/// authorization URL is issued until the exchange ends, and is never
/// persisted.
#[derive(Debug)]
pub struct AuthorizationSession {
    csrf_token: String,
    redirect_target: String,
    received_code: Option<String>,
    received_state: Option<String>,
}

pub struct SessionView {
    pub csrf_token: Seq<char>,
    pub redirect_target: Seq<char>,
    pub received_code: Option<Seq<char>>,
    pub received_state: Option<Seq<char>>,
}

impl SessionView {
    /// A session just opened: nothing received yet.
    pub open spec fn opened(csrf_token: Seq<char>, redirect_target: Seq<char>) -> SessionView {
        SessionView { csrf_token, redirect_target, received_code: None, received_state: None }
    }

    /// Whether the redirect has been recorded.
    pub open spec fn is_populated(self) -> bool {
        self.received_code is Some || self.received_state is Some
    }

    /// The session after a redirect arrived. Only the first one is
    /// recorded.
    pub open spec fn receive(self, code: Seq<char>, state: Seq<char>) -> SessionView {
        if self.is_populated() {
            self
        } else {
            SessionView { received_code: Some(code), received_state: Some(state), ..self }
        }
    }

    /// Whether the recorded redirect belongs to this attempt: its `state`
    /// is exactly the issued token.
    pub open spec fn is_verified(self) -> bool {
        self.received_code is Some && self.received_state == Some(self.csrf_token)
    }

    /// The authorization code to exchange, or the protocol violation.
    pub open spec fn verify(self) -> Result<Seq<char>, AuthError> {
        if self.is_verified() {
            Ok(self.received_code->0)
        } else {
            Err(AuthError::CsrfMismatch)
        }
    }
}

/// View of the outcome of [`AuthorizationSession::verify`].
pub open spec fn code_view(r: Result<String, AuthError>) -> Result<Seq<char>, AuthError> {
    match r {
        Ok(code) => Ok(code@),
        Err(e) => Err(e),
    }
}

impl View for AuthorizationSession {
    type V = SessionView;

    closed spec fn view(&self) -> SessionView {
        SessionView {
            csrf_token: self.csrf_token@,
            redirect_target: self.redirect_target@,
            received_code: opt_str_view(self.received_code),
            received_state: opt_str_view(self.received_state),
        }
    }
}

impl AuthorizationSession {
    /// Opens a session for the token issued with an authorization request.
    pub fn new(csrf_token: String, redirect_target: String) -> (session: AuthorizationSession)
        ensures
            session@ == SessionView::opened(csrf_token@, redirect_target@),
    {
        AuthorizationSession {
            csrf_token,
            redirect_target,
            received_code: None,
            received_state: None,
        }
    }

    /// Records the redirect. Returns whether it was recorded: only the
    /// first redirect of a session is.
    pub fn receive(&mut self, code: String, state: String) -> (recorded: bool)
        ensures
            recorded == !old(self)@.is_populated(),
            final(self)@ == old(self)@.receive(code@, state@),
    {
        if self.received_code.is_some() || self.received_state.is_some() {
            false
        } else {
            self.received_code = Some(code);
            self.received_state = Some(state);
            true
        }
    }

    /// Checks the recorded redirect against the issued token, and hands out
    /// the authorization code if and only if they agree.
    pub fn verify(&self) -> (outcome: Result<String, AuthError>)
        ensures
            code_view(outcome) == self@.verify(),
    {
        match (&self.received_code, &self.received_state) {
            (Some(code), Some(state)) => {
                if *state == self.csrf_token {
                    Ok(code.clone())
                } else {
                    Err(AuthError::CsrfMismatch)
                }
            },
            _ => Err(AuthError::CsrfMismatch),
        }
    }

    pub fn csrf_token(&self) -> (token: &String)
        ensures
            token@ == self@.csrf_token,
    {
        &self.csrf_token
    }

    pub fn redirect_target(&self) -> (target: &String)
        ensures
            target@ == self@.redirect_target,
    {
        &self.redirect_target
    }

    pub fn received_code(&self) -> (code: Option<String>)
        ensures
            opt_str_view(code) == self@.received_code,
    {
        clone_opt_string(&self.received_code)
    }

    pub fn received_state(&self) -> (state: Option<String>)
        ensures
            opt_str_view(state) == self@.received_state,
    {
        clone_opt_string(&self.received_state)
    }
}

} // verus!
