//! The credential lifecycle manager. It owns the configuration record and
//! the credentials in use, and follows the transition system of
//! [`crate::lifecycle`] step by step.

use vstd::prelude::*;
use crate::config::Config;
use crate::credential::{classify, clone_opt_credential, opt_credential_view, Credential, Freshness};
use crate::error::AuthError;
use crate::lifecycle::{
    is_usable, Action, ClientState, Event, EventView, IssuedView, LifecycleState, Phase,
};
use crate::session::AuthorizationSession;

verus! {

/// An authorization request as issued: the URL for the operator to visit,
/// and the single-use token bound to it.
#[derive(Debug, PartialEq, Eq)]
pub struct Issued {
    pub authorize_url: String,
    pub csrf_token: String,
}

impl View for Issued {
    type V = IssuedView;

    open spec fn view(&self) -> IssuedView {
        IssuedView { authorize_url: self.authorize_url@, csrf_token: self.csrf_token@ }
    }
}

pub open spec fn issued_view(issued: Option<Issued>) -> Option<IssuedView> {
    match issued {
        Some(request) => Some(request@),
        None => None,
    }
}

/// Builds an authorization request with `twitch_oauth2`: a
/// `UserTokenBuilder` over the client identity and the redirect target
/// (`RedirectUrl::new`, `UserTokenBuilder::new`), asking for every scope
/// (`set_scopes`, `Scope::all`), and its `generate_url`, which draws a
/// random token. Nothing is claimed of the result: no request comes back
/// where the redirect target is not a URL, and each call draws a new token.
#[verifier::external_body]
fn issue_authorization(client_id: &str, client_secret: &str, redirect_url: &str) -> (issued:
    Option<Issued>)
{
    let redirect = twitch_oauth2::RedirectUrl::new(redirect_url.to_string()).ok()?;
    let id = twitch_oauth2::ClientId::new(client_id.to_string());
    let secret = twitch_oauth2::ClientSecret::new(client_secret.to_string());
    let mut builder = twitch_oauth2::tokens::UserTokenBuilder::new(id, secret, redirect).ok()?
        .set_scopes(twitch_oauth2::Scope::all());
    let (url, csrf) = builder.generate_url();
    Some(Issued { authorize_url: url.to_string(), csrf_token: csrf.secret().clone() })
}

/// The credential lifecycle manager.
#[derive(Debug)]
pub struct TokenClient {
    config: Config,
    check_interval: u64,
    validity_period: u64,
    is_running: bool,
    started: bool,
    phase: Phase,
    app_token: Option<Credential>,
    user_token: Option<Credential>,
    session: Option<AuthorizationSession>,
}

impl View for TokenClient {
    type V = ClientState;

    closed spec fn view(&self) -> ClientState {
        ClientState {
            config: self.config@,
            check_interval: self.check_interval,
            validity_period: self.validity_period,
            is_running: self.is_running,
            started: self.started,
            phase: self.phase,
            app_token: opt_credential_view(self.app_token),
            user_token: opt_credential_view(self.user_token),
            session: match self.session {
                Some(session) => Some(session@),
                None => None,
            },
        }
    }
}

impl TokenClient {
    /// Creates a manager over a configuration record. The check interval
    /// is the configured one, and the staleness threshold twice that; a
    /// configuration whose doubled interval does not fit is refused.
    pub fn new(config: Config) -> (created: Result<TokenClient, AuthError>)
        ensures
            match created {
                Ok(client) => {
                    &&& 2 * config@.app_config.twitch.check_interval() <= u64::MAX
                    &&& client@ == ClientState::initial(config@)
                    &&& client@.wf()
                },
                Err(error) => {
                    &&& 2 * config@.app_config.twitch.check_interval() > u64::MAX
                    &&& error == AuthError::Configuration
                },
            },
    {
        let check_interval: u64 = config.check_interval();
        if check_interval > u64::MAX / 2 {
            return Err(AuthError::Configuration);
        }
        Ok(
            TokenClient {
                config,
                check_interval,
                validity_period: check_interval * 2,
                is_running: false,
                started: false,
                phase: Phase::Uninitialized,
                app_token: None,
                user_token: None,
                session: None,
            },
        )
    }

    fn fail(&mut self, error: AuthError) -> (action: Action)
        ensures
            (final(self)@, action@) == old(self)@.fail(error),
    {
        self.session = None;
        if self.started {
            self.phase = Phase::Idle;
            self.is_running = false;
        } else {
            self.phase = Phase::Failed;
        }
        Action::Fail(error)
    }

    fn authorize(&mut self, issued: Option<Issued>) -> (action: Action)
        ensures
            (final(self)@, action@) == old(self)@.authorize(issued_view(issued)),
    {
        match issued {
            None => self.fail(AuthError::Configuration),
            Some(request) => {
                let redirect = self.config.redirect_url();
                let bind_address = self.config.host_port();
                self.session = Some(AuthorizationSession::new(request.csrf_token, redirect));
                self.phase = Phase::AwaitingRedirect;
                Action::AwaitRedirect { authorize_url: request.authorize_url, bind_address }
            },
        }
    }

    fn acquire(&mut self) -> (action: Action)
        ensures
            (final(self)@, action@) == old(self)@.acquire(),
    {
        self.phase = Phase::AcquiringApp;
        Action::AcquireAppToken {
            client_id: self.config.app_config.twitch.client_id.clone(),
            client_secret: self.config.app_config.twitch.client_secret.clone(),
        }
    }

    fn begin_check(&mut self) -> (action: Action)
        ensures
            (final(self)@, action@) == old(self)@.begin_check(),
    {
        let access_token = match &self.app_token {
            Some(token) => {
                if token.is_usable() {
                    Some(token.access_token.clone())
                } else {
                    None
                }
            },
            None => None,
        };
        match access_token {
            Some(access_token) => {
                self.phase = Phase::ValidatingApp;
                Action::ValidateAppToken { access_token }
            },
            None => self.acquire(),
        }
    }

    fn begin_first_check(&mut self) -> (action: Action)
        ensures
            (final(self)@, action@) == old(self)@.begin_first_check(),
    {
        let access_token = match &self.config.app_config.twitch.app_access_token {
            Some(access) => access.clone(),
            None => String::new(),
        };
        let refresh_token = match &self.config.app_config.twitch.app_refresh_token {
            Some(refresh) => refresh.clone(),
            None => String::new(),
        };
        self.app_token = Some(Credential::new(access_token, Some(refresh_token)));
        self.begin_check()
    }

    fn check_done(&mut self) -> (action: Action)
        ensures
            (final(self)@, action@) == old(self)@.check_done(),
    {
        self.phase = Phase::Idle;
        if self.started {
            Action::Sleep { seconds: self.check_interval }
        } else {
            self.started = true;
            self.is_running = true;
            Action::Started
        }
    }

    /// The stored user credential pair, if both tokens are there and
    /// neither is empty.
    fn stored_user_pair(&self) -> (pair: Option<Credential>)
        ensures
            pair is Some == self@.config.app_config.twitch.has_stored_user_pair(),
            pair matches Some(credential) ==> credential@
                == self@.config.app_config.twitch.stored_user_pair(),
    {
        match (
            &self.config.app_config.twitch.user_access_token,
            &self.config.app_config.twitch.user_refresh_token,
        ) {
            (Some(access), Some(refresh)) => {
                if !access.as_str().is_empty() && !refresh.as_str().is_empty() {
                    Some(Credential::new(access.clone(), Some(refresh.clone())))
                } else {
                    None
                }
            },
            _ => None,
        }
    }

    /// Establishes the user credential, one step at a time. A stored pair
    /// that validates is adopted as it is. Otherwise the interactive flow
    /// runs once: the redirect must carry the issued token as its `state`,
    /// its code is exchanged, and the credential that comes back is written
    /// to the configuration record, adopted, and persisted.
    pub fn get_user_token(&mut self, event: Event, issued: Option<Issued>) -> (action: Action)
        requires
            old(self)@.wf(),
        ensures
            (final(self)@, action@) == old(self)@.user_step(event@, issued_view(issued)),
    {
        match (self.phase, event) {
            (Phase::Uninitialized, Event::Start) => {
                match self.stored_user_pair() {
                    Some(pair) => {
                        self.phase = Phase::ValidatingUser;
                        let refresh_token = match pair.refresh_token {
                            Some(refresh) => refresh,
                            None => String::new(),
                        };
                        Action::ValidateUserToken { access_token: pair.access_token, refresh_token }
                    },
                    None => self.authorize(issued),
                }
            },
            (Phase::ValidatingUser, Event::UserValidated { valid }) => {
                if valid {
                    self.user_token = self.stored_user_pair();
                    self.begin_first_check()
                } else {
                    self.authorize(issued)
                }
            },
            (Phase::AwaitingRedirect, Event::Redirected { code, state }) => {
                match self.session.take() {
                    Some(mut session) => {
                        let copy = state.clone();
                        session.receive(code, state);
                        match session.verify() {
                            Ok(verified) => {
                                self.session = Some(session);
                                self.phase = Phase::ExchangingCode;
                                Action::ExchangeCode { code: verified, state: copy }
                            },
                            Err(error) => self.fail(error),
                        }
                    },
                    None => Action::Ignored,
                }
            },
            (Phase::AwaitingRedirect, Event::ListenerFailed) => self.fail(AuthError::ListenerBind),
            (Phase::ExchangingCode, Event::UserExchanged(outcome)) => {
                match outcome {
                    Some(credential) => {
                        if credential.is_usable() {
                            self.config.set_user_tokens(&credential);
                            self.user_token = Some(credential);
                            self.session = None;
                            self.phase = Phase::SavingUser;
                            Action::Save
                        } else {
                            self.fail(AuthError::Exchange)
                        }
                    },
                    None => self.fail(AuthError::Exchange),
                }
            },
            (Phase::SavingUser, Event::Saved { ok }) => {
                if ok {
                    self.begin_first_check()
                } else {
                    self.fail(AuthError::Persistence)
                }
            },
            _ => Action::Ignored,
        }
    }

    /// Checks the application credential, one step at a time. A credential
    /// that is rejected, or whose remaining lifetime does not exceed the
    /// staleness threshold, is replaced; any other stays in use. The top
    /// of a loop iteration begins a check while the manager is running,
    /// and ends the loop once it is not.
    pub fn check_app_token(&mut self, event: Event) -> (action: Action)
        requires
            old(self)@.wf(),
        ensures
            (final(self)@, action@) == old(self)@.check_step(event@),
    {
        match (self.phase, event) {
            (Phase::ValidatingApp, Event::AppValidated(validation)) => {
                match classify(validation, self.validity_period) {
                    Freshness::Fresh => self.check_done(),
                    _ => self.acquire(),
                }
            },
            (Phase::Idle, Event::Tick) => {
                if self.is_running {
                    self.begin_check()
                } else {
                    Action::Exit
                }
            },
            _ => Action::Ignored,
        }
    }

    /// Replaces the application credential, one step at a time. The
    /// credential that the exchange hands out is written to the
    /// configuration record and adopted, and the record is persisted
    /// before the check counts as done.
    pub fn get_app_token(&mut self, event: Event) -> (action: Action)
        requires
            old(self)@.wf(),
        ensures
            (final(self)@, action@) == old(self)@.acquire_step(event@),
    {
        match (self.phase, event) {
            (Phase::AcquiringApp, Event::AppAcquired(outcome)) => {
                match outcome {
                    Some(credential) => {
                        if credential.is_usable() {
                            self.config.set_app_tokens(&credential);
                            self.app_token = Some(credential);
                            self.phase = Phase::SavingApp;
                            Action::Save
                        } else {
                            self.fail(AuthError::Exchange)
                        }
                    },
                    None => self.fail(AuthError::Exchange),
                }
            },
            (Phase::SavingApp, Event::Saved { ok }) => {
                if ok {
                    self.check_done()
                } else {
                    self.fail(AuthError::Persistence)
                }
            },
            _ => Action::Ignored,
        }
    }

    /// Takes one step of the lifecycle, with the authorization request to
    /// use should the step open the interactive flow.
    pub fn apply(&mut self, event: Event, issued: Option<Issued>) -> (action: Action)
        requires
            old(self)@.wf(),
        ensures
            (final(self)@, action@) == old(self)@.step(event@, issued_view(issued)),
            final(self)@.wf(),
    {
        proof {
            crate::laws::step_preserves_wf(self@, event@, issued_view(issued));
        }
        match self.phase {
            Phase::Uninitialized
            | Phase::ValidatingUser
            | Phase::AwaitingRedirect
            | Phase::ExchangingCode
            | Phase::SavingUser => self.get_user_token(event, issued),
            Phase::ValidatingApp | Phase::Idle => self.check_app_token(event),
            Phase::AcquiringApp | Phase::SavingApp => self.get_app_token(event),
            Phase::Failed => Action::Ignored,
        }
    }

    /// Whether the step on `event` opens the interactive flow.
    fn needs_authorization(&self, event: &Event) -> (needed: bool)
        ensures
            needed == self@.needs_authorization(event@),
    {
        match (self.phase, event) {
            (Phase::Uninitialized, Event::Start) => self.stored_user_pair().is_none(),
            (Phase::ValidatingUser, Event::UserValidated { valid }) => !*valid,
            _ => false,
        }
    }

    /// Takes one step of the lifecycle. Where the step opens the
    /// interactive flow, an authorization request is issued for it first.
    pub fn handle(&mut self, event: Event) -> (action: Action)
        requires
            old(self)@.wf(),
        ensures
            exists|issued: Option<IssuedView>|
                (final(self)@, action@) == #[trigger] old(self)@.step(event@, issued),
            !old(self)@.needs_authorization(event@) ==> (final(self)@, action@) == old(self)@.step(
                event@,
                None,
            ),
            final(self)@.wf(),
    {
        if self.needs_authorization(&event) {
            let redirect = self.config.redirect_url();
            let issued = issue_authorization(
                self.config.app_config.twitch.client_id.as_str(),
                self.config.app_config.twitch.client_secret.as_str(),
                redirect.as_str(),
            );
            self.apply(event, issued)
        } else {
            proof {
                crate::laws::step_ignores_unneeded_request(self@, event@);
            }
            self.apply(event, None)
        }
    }

    /// Begins startup: the manager leaves `Uninitialized` and asks for the
    /// first piece of work.
    pub fn start(&mut self) -> (action: Action)
        requires
            old(self)@.wf(),
        ensures
            exists|issued: Option<IssuedView>|
                (final(self)@, action@) == #[trigger] old(self)@.step(EventView::Start, issued),
            !old(self)@.needs_authorization(EventView::Start) ==> (final(self)@, action@) == old(
                self,
            )@.step(EventView::Start, None),
            final(self)@.wf(),
    {
        self.handle(Event::Start)
    }

    /// Clears the running flag. The background loop ends at the top of its
    /// next iteration; a step in flight is not interrupted.
    pub fn stop(&mut self)
        ensures
            final(self)@ == old(self)@.stopped(),
            old(self)@.wf() ==> final(self)@.wf(),
    {
        self.is_running = false;
    }

    /// Where the manager stands.
    pub fn state(&self) -> (state: LifecycleState)
        ensures
            state == self@.state(),
    {
        if self.phase == Phase::Uninitialized {
            LifecycleState::Uninitialized
        } else if self.phase == Phase::Failed {
            LifecycleState::Stopped
        } else if !self.started {
            LifecycleState::Starting
        } else if self.is_running {
            LifecycleState::Running
        } else {
            LifecycleState::Stopped
        }
    }

    pub fn phase(&self) -> (phase: Phase)
        ensures
            phase == self@.phase,
    {
        self.phase
    }

    pub fn is_running(&self) -> (running: bool)
        ensures
            running == self@.is_running,
    {
        self.is_running
    }

    pub fn check_interval(&self) -> (seconds: u64)
        ensures
            seconds == self@.check_interval,
    {
        self.check_interval
    }

    pub fn validity_period(&self) -> (seconds: u64)
        ensures
            seconds == self@.validity_period,
    {
        self.validity_period
    }

    pub fn config(&self) -> (config: &Config)
        ensures
            config@ == self@.config,
    {
        &self.config
    }

    /// The application credential in use. It is not available until
    /// startup has completed.
    pub fn app_token(&self) -> (token: Result<Credential, AuthError>)
        ensures
            match token {
                Ok(credential) => self@.started && self@.app_token == Some(credential@),
                Err(error) => error == AuthError::NotAvailable && !(self@.started
                    && self@.app_token is Some),
            },
    {
        if !self.started {
            return Err(AuthError::NotAvailable);
        }
        match clone_opt_credential(&self.app_token) {
            Some(credential) => Ok(credential),
            None => Err(AuthError::NotAvailable),
        }
    }

    /// The user credential in use. It is not available until startup has
    /// completed.
    pub fn user_token(&self) -> (token: Result<Credential, AuthError>)
        ensures
            match token {
                Ok(credential) => self@.started && self@.user_token == Some(credential@),
                Err(error) => error == AuthError::NotAvailable && !(self@.started
                    && self@.user_token is Some),
            },
    {
        if !self.started {
            return Err(AuthError::NotAvailable);
        }
        match clone_opt_credential(&self.user_token) {
            Some(credential) => Ok(credential),
            None => Err(AuthError::NotAvailable),
        }
    }
}

impl Drop for TokenClient {
    /// A manager that goes out of use is stopped first: its running flag
    /// is cleared, as by [`TokenClient::stop`].
    fn drop(&mut self)
        ensures
            final(self)@ == old(self)@.stopped(),
        opens_invariants none
        no_unwind
    {
        self.is_running = false;
    }
}

} // verus!
