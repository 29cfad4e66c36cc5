//! The credential lifecycle as a transition system: the states the manager
//! passes through, the events it is told of, the actions it asks for, and
//! the function from state and event to next state and action.
//!
//! The manager performs no input or output itself. Each action names one
//! piece of outside work; whoever drives the manager does that work and
//! reports how it went with the next event.

use vstd::prelude::*;
use crate::config::ConfigView;
use crate::credential::{must_reacquire, opt_credential_view, Credential, CredentialView, Validation};
use crate::error::AuthError;
use crate::session::SessionView;

verus! {

/// Where the manager stands, as its users see it.
#[derive(Clone, Copy, Debug, PartialEq, Eq, Structural)]
pub enum LifecycleState {
    Uninitialized,
    Starting,
    Running,
    Stopped,
}

/// The outside work the manager is waiting for.
#[derive(Clone, Copy, Debug, PartialEq, Eq, Structural)]
pub enum Phase {
    /// Nothing has been asked for yet.
    Uninitialized,
    /// The stored user credential pair is being validated.
    ValidatingUser,
    /// The authorization URL is out; the callback endpoint waits for the
    /// redirect.
    AwaitingRedirect,
    /// The authorization code is being exchanged for a user credential.
    ExchangingCode,
    /// The new user credential is being persisted.
    SavingUser,
    /// The application credential is being validated.
    ValidatingApp,
    /// A new application credential is being requested.
    AcquiringApp,
    /// The new application credential is being persisted.
    SavingApp,
    /// Between two checks of the background loop.
    Idle,
    /// Startup ended with an error.
    Failed,
}

/// What the driver reports to the manager.
#[derive(Debug, PartialEq, Eq)]
pub enum Event {
    /// The start operation was invoked.
    Start,
    /// The stored user credential pair was validated, or failed to.
    UserValidated { valid: bool },
    /// The callback endpoint received a redirect with both parameters.
    Redirected { code: String, state: String },
    /// The callback endpoint could not be bound.
    ListenerFailed,
    /// The code exchange ended: with a credential, or without.
    UserExchanged(Option<Credential>),
    /// The application credential was validated, or failed to.
    AppValidated(Validation),
    /// The client-credentials exchange ended: with a credential, or without.
    AppAcquired(Option<Credential>),
    /// The configuration record was persisted, or could not be.
    Saved { ok: bool },
    /// The background loop is at the top of an iteration.
    Tick,
}

pub enum EventView {
    Start,
    UserValidated { valid: bool },
    Redirected { code: Seq<char>, state: Seq<char> },
    ListenerFailed,
    UserExchanged(Option<CredentialView>),
    AppValidated(Validation),
    AppAcquired(Option<CredentialView>),
    Saved { ok: bool },
    Tick,
}

impl View for Event {
    type V = EventView;

    open spec fn view(&self) -> EventView {
        match self {
            Event::Start => EventView::Start,
            Event::UserValidated { valid } => EventView::UserValidated { valid: *valid },
            Event::Redirected { code, state } => EventView::Redirected {
                code: code@,
                state: state@,
            },
            Event::ListenerFailed => EventView::ListenerFailed,
            Event::UserExchanged(outcome) => EventView::UserExchanged(
                opt_credential_view(*outcome),
            ),
            Event::AppValidated(validation) => EventView::AppValidated(*validation),
            Event::AppAcquired(outcome) => EventView::AppAcquired(opt_credential_view(*outcome)),
            Event::Saved { ok } => EventView::Saved { ok: *ok },
            Event::Tick => EventView::Tick,
        }
    }
}

/// What the manager asks its driver to do next.
#[derive(Debug, PartialEq, Eq)]
pub enum Action {
    /// Validate the stored user credential pair against the provider.
    ValidateUserToken { access_token: String, refresh_token: String },
    /// Show the authorization URL to the operator and wait, at the bound
    /// address, for the redirect.
    AwaitRedirect { authorize_url: String, bind_address: String },
    /// Exchange the authorization code for a user credential.
    ExchangeCode { code: String, state: String },
    /// Validate the application credential against the provider.
    ValidateAppToken { access_token: String },
    /// Request a new application credential from the client identity, with
    /// the full scope set.
    AcquireAppToken { client_id: String, client_secret: String },
    /// Persist the configuration record.
    Save,
    /// Wait this many seconds, then report the next tick.
    Sleep { seconds: u64 },
    /// Startup is complete: start the background loop with a tick.
    Started,
    /// The background loop has ended.
    Exit,
    /// The current operation failed.
    Fail(AuthError),
    /// The event does not answer anything the manager asked for.
    Ignored,
}

pub enum ActionView {
    ValidateUserToken { access_token: Seq<char>, refresh_token: Seq<char> },
    AwaitRedirect { authorize_url: Seq<char>, bind_address: Seq<char> },
    ExchangeCode { code: Seq<char>, state: Seq<char> },
    ValidateAppToken { access_token: Seq<char> },
    AcquireAppToken { client_id: Seq<char>, client_secret: Seq<char> },
    Save,
    Sleep { seconds: u64 },
    Started,
    Exit,
    Fail(AuthError),
    Ignored,
}

impl View for Action {
    type V = ActionView;

    open spec fn view(&self) -> ActionView {
        match self {
            Action::ValidateUserToken { access_token, refresh_token } => {
                ActionView::ValidateUserToken {
                    access_token: access_token@,
                    refresh_token: refresh_token@,
                }
            },
            Action::AwaitRedirect { authorize_url, bind_address } => ActionView::AwaitRedirect {
                authorize_url: authorize_url@,
                bind_address: bind_address@,
            },
            Action::ExchangeCode { code, state } => ActionView::ExchangeCode {
                code: code@,
                state: state@,
            },
            Action::ValidateAppToken { access_token } => ActionView::ValidateAppToken {
                access_token: access_token@,
            },
            Action::AcquireAppToken { client_id, client_secret } => ActionView::AcquireAppToken {
                client_id: client_id@,
                client_secret: client_secret@,
            },
            Action::Save => ActionView::Save,
            Action::Sleep { seconds } => ActionView::Sleep { seconds: *seconds },
            Action::Started => ActionView::Started,
            Action::Exit => ActionView::Exit,
            Action::Fail(error) => ActionView::Fail(*error),
            Action::Ignored => ActionView::Ignored,
        }
    }
}

/// An authorization request as issued: the URL for the operator to visit,
/// and the single-use token bound to it.
pub struct IssuedView {
    pub authorize_url: Seq<char>,
    pub csrf_token: Seq<char>,
}

/// Whether a credential, if there is one, can authenticate calls.
pub open spec fn is_usable(credential: Option<CredentialView>) -> bool {
    credential matches Some(c) && c.is_usable()
}

/// The manager's state.
pub struct ClientState {
    pub config: ConfigView,
    pub check_interval: u64,
    pub validity_period: u64,
    pub is_running: bool,
    /// Whether startup has completed.
    pub started: bool,
    pub phase: Phase,
    pub app_token: Option<CredentialView>,
    pub user_token: Option<CredentialView>,
    pub session: Option<SessionView>,
}

impl ClientState {
    /// The state of a manager just created over `config`.
    pub open spec fn initial(config: ConfigView) -> ClientState {
        ClientState {
            config,
            check_interval: config.app_config.twitch.check_interval(),
            validity_period: (2 * config.app_config.twitch.check_interval()) as u64,
            is_running: false,
            started: false,
            phase: Phase::Uninitialized,
            app_token: None,
            user_token: None,
            session: None,
        }
    }

    /// What holds of every state the manager can be in. Once startup has
    /// completed, both credentials are present and usable; the staleness
    /// threshold is always twice the check interval.
    pub open spec fn wf(self) -> bool {
        &&& self.validity_period == 2 * self.check_interval
        &&& self.is_running ==> self.started
        &&& self.started ==> is_usable(self.app_token) && is_usable(self.user_token)
        &&& match self.phase {
            Phase::Uninitialized => {
                &&& !self.started
                &&& self.session is None
                &&& self.user_token is None
            },
            Phase::ValidatingUser => {
                &&& !self.started
                &&& self.session is None
                &&& self.user_token is None
                &&& self.config.app_config.twitch.has_stored_user_pair()
            },
            Phase::AwaitingRedirect => {
                &&& !self.started
                &&& self.user_token is None
                &&& self.session matches Some(session)
                &&& !session.is_populated()
            },
            Phase::ExchangingCode => {
                &&& !self.started
                &&& self.user_token is None
                &&& self.session matches Some(session)
                &&& session.is_verified()
            },
            Phase::SavingUser => {
                &&& !self.started
                &&& self.session is None
                &&& is_usable(self.user_token)
            },
            Phase::ValidatingApp => {
                &&& self.session is None
                &&& is_usable(self.user_token)
                &&& is_usable(self.app_token)
            },
            Phase::AcquiringApp => {
                &&& self.session is None
                &&& is_usable(self.user_token)
            },
            Phase::SavingApp => {
                &&& self.session is None
                &&& is_usable(self.user_token)
                &&& is_usable(self.app_token)
            },
            Phase::Idle => {
                &&& self.started
                &&& self.session is None
            },
            Phase::Failed => {
                &&& !self.started
                &&& self.session is None
            },
        }
    }

    /// The state as the manager's users see it.
    pub open spec fn state(self) -> LifecycleState {
        if self.phase == Phase::Uninitialized {
            LifecycleState::Uninitialized
        } else if self.phase == Phase::Failed {
            LifecycleState::Stopped
        } else if !self.started {
            LifecycleState::Starting
        } else if self.is_running {
            LifecycleState::Running
        } else {
            LifecycleState::Stopped
        }
    }

    /// The state after a stop signal: the running flag is cleared, and
    /// nothing else changes.
    pub open spec fn stopped(self) -> ClientState {
        ClientState { is_running: false, ..self }
    }

    /// The current operation fails. During startup the manager ends up
    /// failed for good. In the background loop the loop ends, and the
    /// credentials held stay as they are.
    pub open spec fn fail(self, error: AuthError) -> (ClientState, ActionView) {
        if self.started {
            (
                ClientState { phase: Phase::Idle, is_running: false, session: None, ..self },
                ActionView::Fail(error),
            )
        } else {
            (ClientState { phase: Phase::Failed, session: None, ..self }, ActionView::Fail(error))
        }
    }

    /// Opens the interactive flow with an authorization request as issued,
    /// or fails where none could be issued for the configured redirect
    /// target.
    pub open spec fn authorize(self, issued: Option<IssuedView>) -> (ClientState, ActionView) {
        match issued {
            None => self.fail(AuthError::Configuration),
            Some(request) => (
                ClientState {
                    phase: Phase::AwaitingRedirect,
                    session: Some(
                        SessionView::opened(request.csrf_token, self.config.redirect_url()),
                    ),
                    ..self
                },
                ActionView::AwaitRedirect {
                    authorize_url: request.authorize_url,
                    bind_address: self.config.host_port(),
                },
            ),
        }
    }

    /// Requests a new application credential.
    pub open spec fn acquire(self) -> (ClientState, ActionView) {
        (
            ClientState { phase: Phase::AcquiringApp, ..self },
            ActionView::AcquireAppToken {
                client_id: self.config.app_config.twitch.client_id,
                client_secret: self.config.app_config.twitch.client_secret,
            },
        )
    }

    /// Begins a check of the application credential: an absent or empty
    /// one is replaced at once, any other is validated first.
    pub open spec fn begin_check(self) -> (ClientState, ActionView) {
        if is_usable(self.app_token) {
            (
                ClientState { phase: Phase::ValidatingApp, ..self },
                ActionView::ValidateAppToken { access_token: self.app_token->0.access_token },
            )
        } else {
            self.acquire()
        }
    }

    /// Begins the first check, made during startup on the stored
    /// application credential.
    pub open spec fn begin_first_check(self) -> (ClientState, ActionView) {
        ClientState {
            app_token: Some(self.config.app_config.twitch.stored_app_credential()),
            ..self
        }.begin_check()
    }

    /// A check ended well. The first one completes startup; every later
    /// one is followed by a sleep of one check interval.
    pub open spec fn check_done(self) -> (ClientState, ActionView) {
        if self.started {
            (
                ClientState { phase: Phase::Idle, ..self },
                ActionView::Sleep { seconds: self.check_interval },
            )
        } else {
            (
                ClientState { phase: Phase::Idle, started: true, is_running: true, ..self },
                ActionView::Started,
            )
        }
    }

    /// The steps that establish the user credential.
    pub open spec fn user_step(self, event: EventView, issued: Option<IssuedView>) -> (
        ClientState,
        ActionView,
    ) {
        match (self.phase, event) {
            (Phase::Uninitialized, EventView::Start) => {
                if self.config.app_config.twitch.has_stored_user_pair() {
                    (
                        ClientState { phase: Phase::ValidatingUser, ..self },
                        ActionView::ValidateUserToken {
                            access_token: self.config.app_config.twitch.user_access_token->0,
                            refresh_token: self.config.app_config.twitch.user_refresh_token->0,
                        },
                    )
                } else {
                    self.authorize(issued)
                }
            },
            (Phase::ValidatingUser, EventView::UserValidated { valid }) => {
                if valid {
                    ClientState {
                        user_token: Some(self.config.app_config.twitch.stored_user_pair()),
                        ..self
                    }.begin_first_check()
                } else {
                    self.authorize(issued)
                }
            },
            (Phase::AwaitingRedirect, EventView::Redirected { code, state }) => {
                let session = self.session->0.receive(code, state);
                match session.verify() {
                    Ok(verified) => (
                        ClientState { phase: Phase::ExchangingCode, session: Some(session), ..self },
                        ActionView::ExchangeCode { code: verified, state },
                    ),
                    Err(error) => self.fail(error),
                }
            },
            (Phase::AwaitingRedirect, EventView::ListenerFailed) => self.fail(
                AuthError::ListenerBind,
            ),
            (Phase::ExchangingCode, EventView::UserExchanged(outcome)) => {
                if is_usable(outcome) {
                    (
                        ClientState {
                            config: self.config.with_user_tokens(outcome->0),
                            user_token: outcome,
                            session: None,
                            phase: Phase::SavingUser,
                            ..self
                        },
                        ActionView::Save,
                    )
                } else {
                    self.fail(AuthError::Exchange)
                }
            },
            (Phase::SavingUser, EventView::Saved { ok }) => {
                if ok {
                    self.begin_first_check()
                } else {
                    self.fail(AuthError::Persistence)
                }
            },
            _ => (self, ActionView::Ignored),
        }
    }

    /// The steps that check the application credential, at startup and in
    /// every iteration of the background loop.
    pub open spec fn check_step(self, event: EventView) -> (ClientState, ActionView) {
        match (self.phase, event) {
            (Phase::ValidatingApp, EventView::AppValidated(validation)) => {
                if must_reacquire(validation, self.validity_period) {
                    self.acquire()
                } else {
                    self.check_done()
                }
            },
            (Phase::Idle, EventView::Tick) => {
                if self.is_running {
                    self.begin_check()
                } else {
                    (self, ActionView::Exit)
                }
            },
            _ => (self, ActionView::Ignored),
        }
    }

    /// The steps that replace the application credential.
    pub open spec fn acquire_step(self, event: EventView) -> (ClientState, ActionView) {
        match (self.phase, event) {
            (Phase::AcquiringApp, EventView::AppAcquired(outcome)) => {
                if is_usable(outcome) {
                    (
                        ClientState {
                            config: self.config.with_app_tokens(outcome->0),
                            app_token: outcome,
                            phase: Phase::SavingApp,
                            ..self
                        },
                        ActionView::Save,
                    )
                } else {
                    self.fail(AuthError::Exchange)
                }
            },
            (Phase::SavingApp, EventView::Saved { ok }) => {
                if ok {
                    self.check_done()
                } else {
                    self.fail(AuthError::Persistence)
                }
            },
            _ => (self, ActionView::Ignored),
        }
    }

    /// Whether the step on `event` opens the interactive flow, and so needs
    /// an authorization request to be issued.
    pub open spec fn needs_authorization(self, event: EventView) -> bool {
        ||| self.phase == Phase::Uninitialized && event is Start
                && !self.config.app_config.twitch.has_stored_user_pair()
        ||| self.phase == Phase::ValidatingUser && event == (EventView::UserValidated {
            valid: false,
        })
    }

    /// The transition function: the next state and the action asked for,
    /// from the state and the event. `issued` is the authorization request
    /// issued for this step; it is looked at only where
    /// [`Self::needs_authorization`] holds.
    pub open spec fn step(self, event: EventView, issued: Option<IssuedView>) -> (
        ClientState,
        ActionView,
    ) {
        match self.phase {
            Phase::Uninitialized
            | Phase::ValidatingUser
            | Phase::AwaitingRedirect
            | Phase::ExchangingCode
            | Phase::SavingUser => self.user_step(event, issued),
            Phase::ValidatingApp | Phase::Idle => self.check_step(event),
            Phase::AcquiringApp | Phase::SavingApp => self.acquire_step(event),
            Phase::Failed => (self, ActionView::Ignored),
        }
    }
}

} // verus!
