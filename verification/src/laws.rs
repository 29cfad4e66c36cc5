//! What holds of every run of the credential lifecycle.

use vstd::prelude::*;
use crate::credential::{must_reacquire, CredentialView, Validation};
use crate::error::AuthError;
use crate::lifecycle::{
    is_usable, ActionView, ClientState, EventView, IssuedView, LifecycleState, Phase,
};
use crate::session::SessionView;

verus! {

/// One step's input: the event reported, and the authorization request
/// issued for the step if it opens the interactive flow.
pub struct Input {
    pub event: EventView,
    pub issued: Option<IssuedView>,
}

/// The state reached and the actions asked for, in order, when the manager
/// takes one step for each input.
pub open spec fn run(s: ClientState, inputs: Seq<Input>) -> (ClientState, Seq<ActionView>)
    decreases inputs.len(),
{
    if inputs.len() == 0 {
        (s, Seq::empty())
    } else {
        let (next, action) = s.step(inputs[0].event, inputs[0].issued);
        let (last, actions) = run(next, inputs.drop_first());
        (last, seq![action] + actions)
    }
}

/// How often the interactive flow is opened among `actions`.
pub open spec fn authorizations(actions: Seq<ActionView>) -> nat
    decreases actions.len(),
{
    if actions.len() == 0 {
        0
    } else if actions[0] is AwaitRedirect {
        1 + authorizations(actions.drop_first())
    } else {
        authorizations(actions.drop_first())
    }
}

/// The phases in which the user credential is not yet decided on.
pub open spec fn before_authorization(phase: Phase) -> bool {
    phase == Phase::Uninitialized || phase == Phase::ValidatingUser
}

/// The phases of the interactive flow.
pub open spec fn in_authorization(phase: Phase) -> bool {
    phase == Phase::AwaitingRedirect || phase == Phase::ExchangingCode || phase
        == Phase::SavingUser
}

/// Every step leads from a well-formed state to a well-formed state: the
/// staleness threshold stays twice the check interval, and once startup
/// has completed both credentials are present and usable.
pub proof fn step_preserves_wf(s: ClientState, event: EventView, issued: Option<IssuedView>)
    requires
        s.wf(),
    ensures
        s.step(event, issued).0.wf(),
{
}

/// A step that does not open the interactive flow does not depend on the
/// authorization request handed to it.
pub proof fn step_ignores_unneeded_request(s: ClientState, event: EventView)
    requires
        !s.needs_authorization(event),
    ensures
        forall|issued: Option<IssuedView>| #[trigger] s.step(event, issued) == s.step(event, None),
{
}

/// Every run leads from a well-formed state to a well-formed state, and
/// asks for one action per input.
pub proof fn run_preserves_wf(s: ClientState, inputs: Seq<Input>)
    requires
        s.wf(),
    ensures
        run(s, inputs).0.wf(),
        run(s, inputs).1.len() == inputs.len(),
    decreases inputs.len(),
{
    if inputs.len() > 0 {
        step_preserves_wf(s, inputs[0].event, inputs[0].issued);
        run_preserves_wf(s.step(inputs[0].event, inputs[0].issued).0, inputs.drop_first());
    }
}

/// Once startup has completed it stays completed, and the manager holds a
/// usable application credential and a usable user credential from then on,
/// whatever is reported to it.
pub proof fn started_manager_holds_credentials(s: ClientState, inputs: Seq<Input>)
    requires
        s.wf(),
        s.started,
    ensures
        run(s, inputs).0.started,
        is_usable(run(s, inputs).0.app_token),
        is_usable(run(s, inputs).0.user_token),
    decreases inputs.len(),
{
    if inputs.len() > 0 {
        step_preserves_wf(s, inputs[0].event, inputs[0].issued);
        started_manager_holds_credentials(
            s.step(inputs[0].event, inputs[0].issued).0,
            inputs.drop_first(),
        );
    }
}

/// Once the user credential is decided on, no run opens the interactive
/// flow, whatever is reported.
pub proof fn settled_user_never_authorizes(s: ClientState, inputs: Seq<Input>)
    requires
        s.wf(),
        !before_authorization(s.phase),
    ensures
        authorizations(run(s, inputs).1) == 0,
        !before_authorization(run(s, inputs).0.phase),
    decreases inputs.len(),
{
    if inputs.len() > 0 {
        let (next, action) = s.step(inputs[0].event, inputs[0].issued);
        step_preserves_wf(s, inputs[0].event, inputs[0].issued);
        settled_user_never_authorizes(next, inputs.drop_first());
        let rest = run(next, inputs.drop_first()).1;
        assert((seq![action] + rest).drop_first() =~= rest);
    }
}

/// Reuse of a stored credential: where the configuration holds a user
/// credential pair and the provider confirms it, startup adopts the pair
/// and the interactive flow is never opened, in that run or after it.
pub proof fn stored_pair_skips_authorization(s: ClientState, inputs: Seq<Input>)
    requires
        s.wf(),
        s.phase == Phase::Uninitialized,
        s.config.app_config.twitch.has_stored_user_pair(),
        inputs.len() >= 2,
        inputs[0].event is Start,
        inputs[1].event == (EventView::UserValidated { valid: true }),
    ensures
        authorizations(run(s, inputs).1) == 0,
        run(s, inputs).1[0] == (ActionView::ValidateUserToken {
            access_token: s.config.app_config.twitch.user_access_token->0,
            refresh_token: s.config.app_config.twitch.user_refresh_token->0,
        }),
        run(s, inputs).0.user_token == Some(s.config.app_config.twitch.stored_user_pair()),
{
    let (s1, a1) = s.step(inputs[0].event, inputs[0].issued);
    let tail1 = inputs.drop_first();
    let (s2, a2) = s1.step(tail1[0].event, tail1[0].issued);
    let tail2 = tail1.drop_first();
    step_preserves_wf(s, inputs[0].event, inputs[0].issued);
    step_preserves_wf(s1, tail1[0].event, tail1[0].issued);
    settled_user_never_authorizes(s2, tail2);
    user_credential_is_kept(s2, tail2);
    let rest2 = run(s2, tail2).1;
    let rest1 = run(s1, tail1).1;
    assert(rest1.drop_first() =~= rest2);
    assert(run(s, inputs).1.drop_first() =~= rest1);
    assert(authorizations(rest1) == authorizations(rest2));
}

/// A user credential, once adopted, is the one in use from then on.
pub proof fn user_credential_is_kept(s: ClientState, inputs: Seq<Input>)
    requires
        s.wf(),
        s.user_token is Some,
    ensures
        run(s, inputs).0.user_token == s.user_token,
    decreases inputs.len(),
{
    if inputs.len() > 0 {
        step_preserves_wf(s, inputs[0].event, inputs[0].issued);
        user_credential_is_kept(s.step(inputs[0].event, inputs[0].issued).0, inputs.drop_first());
    }
}

/// No run opens the interactive flow more than once. While the user
/// credential is not decided on it has not been opened, and while it is
/// under way it has been opened exactly once.
pub proof fn authorization_runs_at_most_once(s: ClientState, inputs: Seq<Input>)
    requires
        s.wf(),
        before_authorization(s.phase),
    ensures
        authorizations(run(s, inputs).1) <= 1,
        before_authorization(run(s, inputs).0.phase) ==> authorizations(run(s, inputs).1) == 0,
        in_authorization(run(s, inputs).0.phase) ==> authorizations(run(s, inputs).1) == 1,
    decreases inputs.len(),
{
    if inputs.len() > 0 {
        let (next, action) = s.step(inputs[0].event, inputs[0].issued);
        step_preserves_wf(s, inputs[0].event, inputs[0].issued);
        let rest = run(next, inputs.drop_first()).1;
        assert((seq![action] + rest).drop_first() =~= rest);
        if before_authorization(next.phase) {
            authorization_runs_at_most_once(next, inputs.drop_first());
        } else {
            settled_user_never_authorizes(next, inputs.drop_first());
            authorized_user_stays_authorized(next, inputs.drop_first());
        }
    }
}

/// A run that starts inside the interactive flow ends inside it, past it,
/// or failed; it cannot return to where the user credential is undecided.
proof fn authorized_user_stays_authorized(s: ClientState, inputs: Seq<Input>)
    requires
        s.wf(),
        !before_authorization(s.phase),
    ensures
        in_authorization(run(s, inputs).0.phase) ==> in_authorization(s.phase),
    decreases inputs.len(),
{
    if inputs.len() > 0 {
        let (next, action) = s.step(inputs[0].event, inputs[0].issued);
        step_preserves_wf(s, inputs[0].event, inputs[0].issued);
        authorized_user_stays_authorized(next, inputs.drop_first());
    }
}

/// A manager whose startup failed stays as it is: it ignores every event
/// and asks for nothing.
pub proof fn failed_is_terminal(s: ClientState, inputs: Seq<Input>)
    requires
        s.phase == Phase::Failed,
    ensures
        run(s, inputs).0 == s,
        run(s, inputs).1.len() == inputs.len(),
        forall|i: int| 0 <= i < inputs.len() ==> #[trigger] run(s, inputs).1[i] is Ignored,
    decreases inputs.len(),
{
    if inputs.len() > 0 {
        failed_is_terminal(s, inputs.drop_first());
    }
}

/// Whether one of the inputs reports `credential` as the outcome of the
/// code exchange.
pub open spec fn exchange_reported(inputs: Seq<Input>, credential: CredentialView) -> bool {
    exists|i: int|
        0 <= i < inputs.len() && (#[trigger] inputs[i]).event == EventView::UserExchanged(
            Some(credential),
        )
}

/// Inside the interactive flow, the only user credential a run can end up
/// with is one that the code exchange handed out.
pub proof fn adopted_credential_was_exchanged(s: ClientState, inputs: Seq<Input>)
    requires
        s.wf(),
        s.phase == Phase::AwaitingRedirect || s.phase == Phase::ExchangingCode,
    ensures
        run(s, inputs).0.user_token matches Some(credential) ==> exchange_reported(
            inputs,
            credential,
        ),
    decreases inputs.len(),
{
    if inputs.len() > 0 {
        let (next, action) = s.step(inputs[0].event, inputs[0].issued);
        let tail = inputs.drop_first();
        step_preserves_wf(s, inputs[0].event, inputs[0].issued);
        if next.phase == Phase::Failed {
            failed_is_terminal(next, tail);
        } else if next.user_token is Some {
            user_credential_is_kept(next, tail);
        } else {
            adopted_credential_was_exchanged(next, tail);
            if let Some(credential) = run(next, tail).0.user_token {
                let i = choose|i: int|
                    0 <= i < tail.len() && (#[trigger] tail[i]).event == EventView::UserExchanged(
                        Some(credential),
                    );
                assert(inputs[i + 1] == tail[i]);
            }
        }
    }
}

/// Forced reacquisition: where no usable user credential pair is stored,
/// or the provider does not confirm the stored one, every run that does
/// not fail has opened the interactive flow exactly once, and the user
/// credential it ends up with, if any, is one the code exchange handed out.
pub proof fn missing_pair_forces_authorization(s: ClientState, inputs: Seq<Input>)
    requires
        s.wf(),
        s.phase == Phase::Uninitialized,
        inputs.len() >= 1,
        inputs[0].event is Start,
        !s.config.app_config.twitch.has_stored_user_pair() || (inputs.len() >= 2
            && inputs[1].event == (EventView::UserValidated { valid: false })),
    ensures
        run(s, inputs).0.phase != Phase::Failed ==> authorizations(run(s, inputs).1) == 1,
        run(s, inputs).0.user_token matches Some(credential) ==> exchange_reported(
            inputs,
            credential,
        ),
{
    let (s1, a1) = s.step(inputs[0].event, inputs[0].issued);
    let tail1 = inputs.drop_first();
    let rest1 = run(s1, tail1).1;
    step_preserves_wf(s, inputs[0].event, inputs[0].issued);
    assert(run(s, inputs).1.drop_first() =~= rest1);
    if !s.config.app_config.twitch.has_stored_user_pair() {
        opened_flow_counts_once(s1, tail1, inputs);
    } else {
        let (s2, a2) = s1.step(tail1[0].event, tail1[0].issued);
        let tail2 = tail1.drop_first();
        let rest2 = run(s2, tail2).1;
        step_preserves_wf(s1, tail1[0].event, tail1[0].issued);
        assert(rest1.drop_first() =~= rest2);
        opened_flow_counts_once(s2, tail2, tail1);
        assert(authorizations(rest1) == (if a2 is AwaitRedirect {
            1 + authorizations(rest2)
        } else {
            authorizations(rest2)
        }));
        if let Some(credential) = run(s2, tail2).0.user_token {
            let i = choose|i: int|
                0 <= i < tail1.len() && (#[trigger] tail1[i]).event == EventView::UserExchanged(
                    Some(credential),
                );
            assert(inputs[i + 1] == tail1[i]);
        }
    }
}

/// From the state right after an attempt to open the interactive flow: a
/// run that does not fail has not opened it again, and adopts only what the
/// exchange handed out. `all` is `tail` with one input in front.
proof fn opened_flow_counts_once(s: ClientState, tail: Seq<Input>, all: Seq<Input>)
    requires
        s.wf(),
        s.phase == Phase::AwaitingRedirect || s.phase == Phase::Failed,
        s.user_token is None,
        all.len() >= 1,
        tail == all.drop_first(),
    ensures
        authorizations(run(s, tail).1) == 0,
        run(s, tail).0.phase != Phase::Failed ==> s.phase == Phase::AwaitingRedirect,
        run(s, tail).0.user_token matches Some(credential) ==> exchange_reported(all, credential),
{
    settled_user_never_authorizes(s, tail);
    if s.phase == Phase::Failed {
        failed_is_terminal(s, tail);
    } else {
        adopted_credential_was_exchanged(s, tail);
        if let Some(credential) = run(s, tail).0.user_token {
            let i = choose|i: int|
                0 <= i < tail.len() && (#[trigger] tail[i]).event == EventView::UserExchanged(
                    Some(credential),
                );
            assert(all[i + 1] == tail[i]);
        }
    }
}

/// The code exchange's result is adopted: a usable credential handed out
/// for the verified code becomes the user credential in use, is written to
/// the configuration record, and is persisted next.
pub proof fn exchanged_credential_is_adopted(
    s: ClientState,
    credential: CredentialView,
    issued: Option<IssuedView>,
)
    requires
        s.wf(),
        s.phase == Phase::ExchangingCode,
        credential.is_usable(),
    ensures
        ({
            let (next, action) = s.step(EventView::UserExchanged(Some(credential)), issued);
            &&& action is Save
            &&& next.phase == Phase::SavingUser
            &&& next.user_token == Some(credential)
            &&& next.config == s.config.with_user_tokens(credential)
        }),
{
}

/// A session accepts a redirect exactly when its `state` is the issued
/// token, and then hands out the redirect's code.
pub proof fn session_accepts_only_its_token(
    csrf_token: Seq<char>,
    redirect_target: Seq<char>,
    code: Seq<char>,
    state: Seq<char>,
)
    ensures
        SessionView::opened(csrf_token, redirect_target).receive(code, state).verify() == (if state
            == csrf_token {
            Ok::<Seq<char>, AuthError>(code)
        } else {
            Err::<Seq<char>, AuthError>(AuthError::CsrfMismatch)
        }),
{
}

/// A redirect whose `state` is not the token issued with the pending
/// authorization request is rejected: the attempt is aborted with a
/// protocol error, no exchange is asked for, and no user credential comes
/// of it, then or later.
pub proof fn mismatched_state_is_rejected(
    s: ClientState,
    code: Seq<char>,
    state: Seq<char>,
    issued: Option<IssuedView>,
    later: Seq<Input>,
)
    requires
        s.wf(),
        s.phase == Phase::AwaitingRedirect,
        state != s.session->0.csrf_token,
    ensures
        ({
            let (next, action) = s.step(EventView::Redirected { code, state }, issued);
            &&& action == ActionView::Fail(AuthError::CsrfMismatch)
            &&& next.phase == Phase::Failed
            &&& next.session is None
            &&& next.user_token is None
            &&& next.config == s.config
            &&& run(next, later).0 == next
            &&& forall|i: int| 0 <= i < later.len() ==> #[trigger] run(next, later).1[i] is Ignored
        }),
{
    let (next, action) = s.step(EventView::Redirected { code, state }, issued);
    failed_is_terminal(next, later);
}

/// A redirect whose `state` is the issued token has its code exchanged.
pub proof fn matching_state_is_exchanged(
    s: ClientState,
    code: Seq<char>,
    issued: Option<IssuedView>,
)
    requires
        s.wf(),
        s.phase == Phase::AwaitingRedirect,
    ensures
        ({
            let state = s.session->0.csrf_token;
            let (next, action) = s.step(EventView::Redirected { code, state }, issued);
            &&& action == ActionView::ExchangeCode { code, state }
            &&& next.phase == Phase::ExchangingCode
        }),
{
}

/// The staleness threshold decides a check: a validated application
/// credential is replaced exactly when its remaining lifetime does not
/// exceed twice the check interval, and is otherwise left in use.
pub proof fn check_replaces_exactly_the_stale(
    s: ClientState,
    validation: Validation,
    issued: Option<IssuedView>,
)
    requires
        s.wf(),
        s.phase == Phase::ValidatingApp,
    ensures
        ({
            let (next, action) = s.step(EventView::AppValidated(validation), issued);
            let stale = match validation {
                Validation::Rejected => true,
                Validation::Valid { expires_in } => expires_in <= 2 * s.check_interval,
            };
            &&& stale == must_reacquire(validation, s.validity_period)
            &&& action is AcquireAppToken == stale
            &&& stale ==> next.phase == Phase::AcquiringApp
            &&& !stale ==> next.phase == Phase::Idle && next.started && (action is Started
                || action is Sleep)
            &&& next.app_token == s.app_token
            &&& next.config == s.config
        }),
{
}

/// One second below the threshold the credential is replaced, one second
/// above it is not.
pub proof fn threshold_is_twice_the_interval(s: ClientState, issued: Option<IssuedView>)
    requires
        s.wf(),
        s.phase == Phase::ValidatingApp,
        s.check_interval >= 1,
        2 * s.check_interval + 1 <= u64::MAX,
    ensures
        s.step(
            EventView::AppValidated(
                Validation::Valid { expires_in: (2 * s.check_interval - 1) as u64 },
            ),
            issued,
        ).1 is AcquireAppToken,
        !(s.step(
            EventView::AppValidated(
                Validation::Valid { expires_in: (2 * s.check_interval + 1) as u64 },
            ),
            issued,
        ).1 is AcquireAppToken),
{
}

/// The background loop cannot begin before startup has completed: until
/// then a tick changes nothing and asks for nothing.
pub proof fn loop_begins_after_startup(s: ClientState, issued: Option<IssuedView>)
    requires
        s.wf(),
        !s.started,
    ensures
        s.step(EventView::Tick, issued) == (s, ActionView::Ignored),
        s.state() != LifecycleState::Running,
{
}

/// Startup completes only with the first check of the application
/// credential: the step that reports it ends that check, and leaves the
/// manager running with both credentials usable.
pub proof fn startup_completes_with_first_check(
    s: ClientState,
    event: EventView,
    issued: Option<IssuedView>,
)
    requires
        s.wf(),
        s.step(event, issued).1 is Started,
    ensures
        !s.started,
        s.phase == Phase::ValidatingApp || s.phase == Phase::SavingApp,
        s.phase == Phase::ValidatingApp ==> event is AppValidated && !must_reacquire(
            event->AppValidated_0,
            s.validity_period,
        ),
        s.phase == Phase::SavingApp ==> event == (EventView::Saved { ok: true }),
        s.step(event, issued).0.state() == LifecycleState::Running,
        is_usable(s.step(event, issued).0.app_token),
        is_usable(s.step(event, issued).0.user_token),
{
}

/// After startup, where the loop's first check finds the credential still
/// fresh, the loop sleeps one check interval before anything else: every
/// request for a new application credential in the run comes after that
/// sleep.
pub proof fn refresh_waits_one_interval(s: ClientState, inputs: Seq<Input>, fresh: Validation)
    requires
        s.wf(),
        s.phase == Phase::Idle,
        s.is_running,
        inputs.len() >= 2,
        inputs[0].event is Tick,
        inputs[1].event == EventView::AppValidated(fresh),
        !must_reacquire(fresh, s.validity_period),
    ensures
        run(s, inputs).1.len() == inputs.len(),
        run(s, inputs).1[0] is ValidateAppToken,
        run(s, inputs).1[1] == (ActionView::Sleep { seconds: s.check_interval }),
        forall|i: int|
            0 <= i < inputs.len() && #[trigger] run(s, inputs).1[i] is AcquireAppToken ==> i > 1,
{
    let (s1, a1) = s.step(inputs[0].event, inputs[0].issued);
    let tail1 = inputs.drop_first();
    let (s2, a2) = s1.step(tail1[0].event, tail1[0].issued);
    let tail2 = tail1.drop_first();
    let rest2 = run(s2, tail2).1;
    let rest1 = run(s1, tail1).1;
    step_preserves_wf(s, inputs[0].event, inputs[0].issued);
    run_preserves_wf(s, inputs);
    assert(rest1 == seq![a2] + rest2);
    assert(run(s, inputs).1 == seq![a1] + rest1);
}

/// Once the running flag is cleared the loop begins no further iteration:
/// no run asks for the application credential to be validated again, and
/// the flag stays cleared.
pub proof fn cleared_flag_ends_the_loop(s: ClientState, inputs: Seq<Input>)
    requires
        s.wf(),
        s.started,
        !s.is_running,
    ensures
        run(s, inputs).1.len() == inputs.len(),
        !run(s, inputs).0.is_running,
        forall|i: int|
            0 <= i < inputs.len() ==> !(#[trigger] run(s, inputs).1[i] is ValidateAppToken),
    decreases inputs.len(),
{
    if inputs.len() > 0 {
        let (next, action) = s.step(inputs[0].event, inputs[0].issued);
        step_preserves_wf(s, inputs[0].event, inputs[0].issued);
        cleared_flag_ends_the_loop(next, inputs.drop_first());
    }
}

/// A stopped manager between two checks does nothing at all: a tick ends
/// the loop, every other event is ignored, and the state stays as it is.
pub proof fn stopped_manager_is_idle(s: ClientState, inputs: Seq<Input>)
    requires
        s.wf(),
        s.stopped().phase == Phase::Idle,
    ensures
        run(s.stopped(), inputs).0 == s.stopped(),
        run(s.stopped(), inputs).1.len() == inputs.len(),
        forall|i: int|
            0 <= i < inputs.len() ==> (#[trigger] run(s.stopped(), inputs).1[i]) == (
            if inputs[i].event is Tick {
                ActionView::Exit
            } else {
                ActionView::Ignored
            }),
    decreases inputs.len(),
{
    if inputs.len() > 0 {
        stopped_manager_is_idle(s, inputs.drop_first());
    }
}

/// Write-through for the application credential: a credential handed out
/// by the exchange is written to the configuration record and adopted, and
/// the record's persistence is asked for before anything else. Success is
/// reported only once the record is persisted; a persistence failure is
/// reported as an error, and the credential adopted stays in memory.
pub proof fn app_credential_is_written_through(
    s: ClientState,
    credential: CredentialView,
    ok: bool,
    issued: Option<IssuedView>,
)
    requires
        s.wf(),
        s.phase == Phase::AcquiringApp,
        credential.is_usable(),
    ensures
        ({
            let (held, first) = s.step(EventView::AppAcquired(Some(credential)), issued);
            let (next, second) = held.step(EventView::Saved { ok }, issued);
            &&& first is Save
            &&& held.phase == Phase::SavingApp
            &&& held.app_token == Some(credential)
            &&& held.config == s.config.with_app_tokens(credential)
            &&& next.app_token == Some(credential)
            &&& next.config == held.config
            &&& ok ==> second is Started || second == (ActionView::Sleep {
                seconds: s.check_interval,
            })
            &&& !ok ==> second == ActionView::Fail(AuthError::Persistence)
        }),
{
}

/// Write-through for the user credential, as for the application
/// credential: written and adopted, then persisted; the check of the
/// application credential follows only a successful persistence.
pub proof fn user_credential_is_written_through(
    s: ClientState,
    credential: CredentialView,
    ok: bool,
    issued: Option<IssuedView>,
)
    requires
        s.wf(),
        s.phase == Phase::ExchangingCode,
        credential.is_usable(),
    ensures
        ({
            let (held, first) = s.step(EventView::UserExchanged(Some(credential)), issued);
            let (next, second) = held.step(EventView::Saved { ok }, issued);
            &&& first is Save
            &&& held.phase == Phase::SavingUser
            &&& held.user_token == Some(credential)
            &&& held.config == s.config.with_user_tokens(credential)
            &&& next.user_token == Some(credential)
            &&& next.config == held.config
            &&& ok ==> second is ValidateAppToken || second is AcquireAppToken
            &&& !ok ==> second == ActionView::Fail(AuthError::Persistence) && next.phase
                == Phase::Failed
        }),
{
}

/// Nothing is reported done while a persistence is pending: in the phases
/// that wait for it, only a successful one leads on.
pub proof fn success_follows_persistence(s: ClientState, event: EventView, issued: Option<IssuedView>)
    requires
        s.wf(),
        s.phase == Phase::SavingApp || s.phase == Phase::SavingUser,
    ensures
        ({
            let (next, action) = s.step(event, issued);
            &&& event == (EventView::Saved { ok: true }) || action is Ignored || action
                == ActionView::Fail(AuthError::Persistence)
            &&& action is Ignored ==> next == s
        }),
{
}

/// A failed exchange leaves the credentials and the configuration record
/// as they were, and is reported as an error.
pub proof fn failed_exchange_changes_nothing(s: ClientState, issued: Option<IssuedView>)
    requires
        s.wf(),
        s.phase == Phase::AcquiringApp || s.phase == Phase::ExchangingCode,
    ensures
        ({
            let event = if s.phase == Phase::AcquiringApp {
                EventView::AppAcquired(None)
            } else {
                EventView::UserExchanged(None)
            };
            let (next, action) = s.step(event, issued);
            &&& action == ActionView::Fail(AuthError::Exchange)
            &&& next.app_token == s.app_token
            &&& next.user_token == s.user_token
            &&& next.config == s.config
            &&& next.state() == LifecycleState::Stopped
        }),
{
}

} // verus!
