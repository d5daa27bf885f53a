//! Phases of one attempt to replace a device session.

use crate::device_recovery::{
    bounded, generations_exhausted, send_failure, DeviceSessionFactoryError,
    DeviceSessionRecoveryEvent, RecoveryState, MAX_RECOVERY_ERROR_BYTES,
};
use crate::device_session_port::DeviceSessionEvent;
use crate::nonzero::NonZeroU64;
use crate::protocol::DeviceInfo;
use crate::text::concat;
use vstd::prelude::*;
use vstd::string::*;

verus! {

/// Why an attempt ended without a session.
#[derive(Debug, PartialEq, Eq)]
pub enum AttemptError {
    Cancelled,
    Failed(String),
}

/// One attempt: its request, its device and its session generation.
#[derive(Debug)]
pub struct RecoveryAttempt {
    pub request_generation: u64,
    pub device: DeviceInfo,
    pub session_generation: NonZeroU64,
}

/// An attempt whose predecessor is retired, with what went wrong at that.
#[derive(Debug)]
pub struct RetiredAttempt {
    pub attempt: RecoveryAttempt,
    pub retired_session_cleanup_error: Option<String>,
}

/// Take in what the factory made.
pub fn created(made: Result<(), DeviceSessionFactoryError>) -> (result: Result<(), AttemptError>)
    ensures
        match made {
            Ok(_) => result is Ok,
            Err(DeviceSessionFactoryError::Cancelled) => result == Err::<(), _>(
                AttemptError::Cancelled,
            ),
            Err(DeviceSessionFactoryError::Failed(text)) => result == Err::<(), _>(
                AttemptError::Failed(text),
            ),
        },
{
    match made {
        Ok(()) => Ok(()),
        Err(DeviceSessionFactoryError::Cancelled) => Err(AttemptError::Cancelled),
        Err(DeviceSessionFactoryError::Failed(text)) => Err(AttemptError::Failed(text)),
    }
}

/// What is told of a session that does not fit.
pub open spec fn tells_misfit(
    error: Seq<char>,
    cleanup: Option<String>,
    failure: AttemptError,
) -> bool {
    failure matches AttemptError::Failed(text) && text@ == match cleanup {
        None => "recovered Device session is incompatible: "@ + error,
        Some(cleanup) => "recovered Device session is incompatible: "@ + error
            + "; replacement cleanup also failed: "@ + cleanup@,
    }
}

/// The end of an attempt whose session does not fit the display, once that
/// session was cleaned up.
pub fn incompatible(error: &str, cleanup: Option<String>) -> (failure: AttemptError)
    ensures
        tells_misfit(error@, cleanup, failure),
{
    let mut text = concat("recovered Device session is incompatible: ", error);
    if let Some(cleanup) = cleanup {
        text.append("; replacement cleanup also failed: ");
        text.append(cleanup.as_str());
    }
    AttemptError::Failed(text)
}

impl RetiredAttempt {
    /// The report of the session that was installed.
    pub fn ready(self, installed: NonZeroU64) -> (event: DeviceSessionRecoveryEvent)
        ensures
            event == (DeviceSessionRecoveryEvent::Ready {
                request_generation: self.attempt.request_generation,
                device: self.attempt.device,
                session_generation: installed,
                retired_session_cleanup_error: self.retired_session_cleanup_error,
            }),
    {
        DeviceSessionRecoveryEvent::Ready {
            request_generation: self.attempt.request_generation,
            device: self.attempt.device,
            session_generation: installed,
            retired_session_cleanup_error: self.retired_session_cleanup_error,
        }
    }
}

fn install_failed(text: &str) -> (error: AttemptError)
    ensures
        error matches AttemptError::Failed(told) && told@ == "install recovered Device session: "@
            + text@,
{
    AttemptError::Failed(concat("install recovered Device session: ", text))
}

fn retire_failed(text: &str) -> (error: AttemptError)
    ensures
        error matches AttemptError::Failed(told) && told@ == "retire current Device session: "@
            + text@,
{
    AttemptError::Failed(concat("retire current Device session: ", text))
}

/// What is told of an attempt that did not succeed.
pub open spec fn tells_attempt(
    request_generation: u64,
    device: DeviceInfo,
    error: AttemptError,
    report: Option<DeviceSessionRecoveryEvent>,
) -> bool {
    match error {
        AttemptError::Cancelled => report is None,
        AttemptError::Failed(text) => report matches Some(
            DeviceSessionRecoveryEvent::Failed {
                request_generation: generation,
                device: target,
                error: told,
            },
        ) && generation == request_generation && target == device && told@ == bounded(
            text@,
            MAX_RECOVERY_ERROR_BYTES as nat,
        ),
    }
}

/// The report of an attempt that ended without a session: none for one that
/// was cancelled.
pub fn failure_report(request_generation: u64, device: DeviceInfo, error: AttemptError) -> (report:
    Option<DeviceSessionRecoveryEvent>)
    ensures
        tells_attempt(request_generation, device, error, report),
{
    match error {
        AttemptError::Cancelled => None,
        AttemptError::Failed(text) => Some(send_failure(request_generation, device, text)),
    }
}

/// Where the recovery of a display stands.
#[derive(Debug)]
pub enum RecoveryPhase {
    Idle,
    /// The session before is being retired.
    Retiring(RecoveryAttempt),
    /// A new session is being made.
    Creating(RetiredAttempt),
    /// The new session is held against the display.
    Validating(RetiredAttempt),
    /// A new session that does not fit is being cleaned up.
    Rejecting { retired: RetiredAttempt, error: String },
    /// The new session is being installed.
    Installing(RetiredAttempt),
    /// A report is being handed over. The recovery ends where nobody takes a
    /// required one.
    Reporting { required: bool },
    Ended,
}

/// The recovery of a display.
#[derive(Debug)]
pub struct Recovery {
    pub state: RecoveryState,
    pub phase: RecoveryPhase,
}

/// What happens to a recovery.
#[derive(Debug)]
pub enum RecoveryInput {
    Recover { request_generation: u64, device: DeviceInfo },
    Shutdown,
    /// All command handles are gone.
    CommandsClosed,
    /// The current session has ended, or its events have.
    SessionEvent(Option<DeviceSessionEvent>),
    /// What the cleanup of the session before complained about, or why it
    /// could not be retired.
    Retired(Result<Option<String>, String>),
    Created(Result<(), DeviceSessionFactoryError>),
    Validated(Result<(), String>),
    /// A session that was not installed is cleaned up, with its complaint.
    CleanedUp(Option<String>),
    Installed(Result<NonZeroU64, String>),
    /// Whether somebody took the report.
    Reported { taken: bool },
}

/// What a recovery does next.
#[derive(Debug)]
pub enum RecoveryAction {
    /// Wait for the next request. With `stop_events`, the events of the session
    /// at hand end first.
    Wait { stop_events: bool },
    /// End the events of the current session, if there is one, then retire it.
    Retire { stop_events: bool },
    /// Ask the factory for a session, under the cancellation of the request.
    Create { request_generation: u64, session_generation: NonZeroU64 },
    Validate,
    /// End the events of the new session, then the session.
    CleanUp,
    Install { session_generation: NonZeroU64 },
    /// Tell the display. With `stop_events`, the events of the session at hand
    /// end first.
    Report { stop_events: bool, event: DeviceSessionRecoveryEvent },
    /// End, and with `stop_events` end the events of the current session too.
    End { stop_events: bool },
}

/// The text, if the report is one of a failure with it.
pub open spec fn reports_failure(
    event: DeviceSessionRecoveryEvent,
    attempt: RecoveryAttempt,
    text: Seq<char>,
) -> bool {
    event matches DeviceSessionRecoveryEvent::Failed { request_generation, device, error }
        && request_generation == attempt.request_generation && device == attempt.device && error@
        == bounded(text, MAX_RECOVERY_ERROR_BYTES as nat)
}

/// The action is the report of a failed attempt.
pub open spec fn tells_failure(
    action: RecoveryAction,
    stop_events: bool,
    attempt: RecoveryAttempt,
    text: Seq<char>,
) -> bool {
    action matches RecoveryAction::Report { stop_events: stop, event } && stop == stop_events
        && reports_failure(event, attempt, text)
}

/// The recovery took something in as it is due. What does not belong to its
/// phase is ignored.
pub open spec fn recovery_reacts(
    before: Recovery,
    input: RecoveryInput,
    after: Recovery,
    action: RecoveryAction,
) -> bool {
    match (before.phase, input) {
        (RecoveryPhase::Ended, _) => after == before && action == (RecoveryAction::Wait {
            stop_events: false,
        }),
        (RecoveryPhase::Reporting { required }, RecoveryInput::Reported { taken }) => {
            if required && !taken {
                &&& after == (Recovery { phase: RecoveryPhase::Ended, ..before })
                &&& action == (RecoveryAction::End { stop_events: false })
            } else {
                &&& after == (Recovery { phase: RecoveryPhase::Idle, ..before })
                &&& action == (RecoveryAction::Wait { stop_events: false })
            }
        },
        (RecoveryPhase::Idle, RecoveryInput::CommandsClosed) => {
            &&& after == (Recovery { phase: RecoveryPhase::Ended, ..before })
            &&& action == (RecoveryAction::End { stop_events: false })
        },
        (RecoveryPhase::Idle, RecoveryInput::Shutdown) => {
            &&& after == (Recovery { phase: RecoveryPhase::Ended, ..before })
            &&& action == (RecoveryAction::End { stop_events: before.state.events_open })
        },
        (RecoveryPhase::Idle, RecoveryInput::SessionEvent(event)) => {
            &&& after == (Recovery {
                state: RecoveryState { events_open: false, ..before.state },
                phase: RecoveryPhase::Reporting { required: true },
            })
            &&& action matches RecoveryAction::Report {
                stop_events,
                event: DeviceSessionRecoveryEvent::TransportFailed { session_generation, error },
            }
            &&& stop_events
            &&& session_generation == match event {
                Some(event) => event.session_generation,
                None => before.state.last_session_generation,
            }
            &&& error@ == bounded(
                match event {
                    Some(event) => event.error@,
                    None => "Device-session event source stopped"@,
                },
                MAX_RECOVERY_ERROR_BYTES as nat,
            )
        },
        (
            RecoveryPhase::Idle,
            RecoveryInput::Recover { request_generation, device },
        ) => if before.state.last_session_generation@ == u64::MAX {
            &&& after == (Recovery {
                phase: RecoveryPhase::Reporting { required: false },
                ..before
            })
            &&& action matches RecoveryAction::Report {
                stop_events,
                event: DeviceSessionRecoveryEvent::Failed {
                    request_generation: told,
                    device: target,
                    error,
                },
            }
            &&& !stop_events && told == request_generation && target == device
            &&& error@ == bounded(
                "Device-session generation exhausted"@,
                MAX_RECOVERY_ERROR_BYTES as nat,
            )
        } else {
            &&& after.state.last_session_generation@ == before.state.last_session_generation@ + 1
            &&& !after.state.events_open
            &&& after.phase == RecoveryPhase::Retiring(
                RecoveryAttempt {
                    request_generation,
                    device,
                    session_generation: after.state.last_session_generation,
                },
            )
            &&& action == (RecoveryAction::Retire { stop_events: before.state.events_open })
        },
        (RecoveryPhase::Retiring(attempt), RecoveryInput::Retired(reply)) => match reply {
            Ok(cleanup_error) => {
                &&& after == (Recovery {
                    phase: RecoveryPhase::Creating(
                        RetiredAttempt { attempt, retired_session_cleanup_error: cleanup_error },
                    ),
                    ..before
                })
                &&& action == (RecoveryAction::Create {
                    request_generation: attempt.request_generation,
                    session_generation: attempt.session_generation,
                })
            },
            Err(text) => {
                &&& after == (Recovery {
                    phase: RecoveryPhase::Reporting { required: false },
                    ..before
                })
                &&& tells_failure(
                    action,
                    false,
                    attempt,
                    "retire current Device session: "@ + text@,
                )
            },
        },
        (RecoveryPhase::Creating(retired), RecoveryInput::Created(made)) => {
            match made {
                Ok(_) => {
                    &&& after == (Recovery { phase: RecoveryPhase::Validating(retired), ..before })
                    &&& action == RecoveryAction::Validate
                },
                Err(DeviceSessionFactoryError::Cancelled) => {
                    &&& after == (Recovery { phase: RecoveryPhase::Idle, ..before })
                    &&& action == (RecoveryAction::Wait { stop_events: false })
                },
                Err(DeviceSessionFactoryError::Failed(text)) => {
                    &&& after == (Recovery {
                        phase: RecoveryPhase::Reporting { required: false },
                        ..before
                    })
                    &&& tells_failure(action, false, retired.attempt, text@)
                },
            }
        },
        (RecoveryPhase::Validating(retired), RecoveryInput::Validated(verdict)) => match verdict {
            Ok(_) => {
                &&& after == (Recovery { phase: RecoveryPhase::Installing(retired), ..before })
                &&& action == (RecoveryAction::Install {
                    session_generation: retired.attempt.session_generation,
                })
            },
            Err(error) => {
                &&& after == (Recovery {
                    phase: RecoveryPhase::Rejecting { retired, error },
                    ..before
                })
                &&& action == RecoveryAction::CleanUp
            },
        },
        (RecoveryPhase::Rejecting { retired, error }, RecoveryInput::CleanedUp(cleanup)) => {
            &&& after == (Recovery {
                phase: RecoveryPhase::Reporting { required: false },
                ..before
            })
            &&& tells_failure(
                action,
                false,
                retired.attempt,
                match cleanup {
                    None => "recovered Device session is incompatible: "@ + error@,
                    Some(cleanup) => "recovered Device session is incompatible: "@ + error@
                        + "; replacement cleanup also failed: "@ + cleanup@,
                },
            )
        },
        (RecoveryPhase::Installing(retired), RecoveryInput::Installed(reply)) => match reply {
            Ok(installed) => {
                &&& after == (Recovery {
                    state: RecoveryState { events_open: true, ..before.state },
                    phase: RecoveryPhase::Reporting { required: true },
                })
                &&& action == (RecoveryAction::Report {
                    stop_events: false,
                    event: DeviceSessionRecoveryEvent::Ready {
                        request_generation: retired.attempt.request_generation,
                        device: retired.attempt.device,
                        session_generation: installed,
                        retired_session_cleanup_error: retired.retired_session_cleanup_error,
                    },
                })
            },
            Err(text) => {
                &&& after == (Recovery {
                    phase: RecoveryPhase::Reporting { required: false },
                    ..before
                })
                &&& tells_failure(
                    action,
                    true,
                    retired.attempt,
                    "install recovered Device session: "@ + text@,
                )
            },
        },
        _ => after == before && action == (RecoveryAction::Wait {
            stop_events: false,
        }),
    }
}

fn reporting(
    state: RecoveryState,
    stop_events: bool,
    attempt: RecoveryAttempt,
    error: AttemptError,
) -> (result: (Recovery, RecoveryAction))
    ensures
        match error {
            AttemptError::Cancelled => {
                &&& result.0 == (Recovery { state, phase: RecoveryPhase::Idle })
                &&& result.1 == (RecoveryAction::Wait { stop_events })
            },
            AttemptError::Failed(text) => {
                &&& result.0 == (Recovery {
                    state,
                    phase: RecoveryPhase::Reporting { required: false },
                })
                &&& tells_failure(result.1, stop_events, attempt, text@)
            },
        },
{
    match failure_report(attempt.request_generation, attempt.device, error) {
        Some(event) => (
            Recovery { state, phase: RecoveryPhase::Reporting { required: false } },
            RecoveryAction::Report { stop_events, event },
        ),
        None => (
            Recovery { state, phase: RecoveryPhase::Idle },
            RecoveryAction::Wait { stop_events },
        ),
    }
}

/// React to one input.
pub fn run_recovery(recovery: Recovery, input: RecoveryInput) -> (result: (Recovery, RecoveryAction))
    ensures
        recovery_reacts(recovery, input, result.0, result.1),
{
    let mut state = recovery.state;
    match (recovery.phase, input) {
        (RecoveryPhase::Ended, _) => (
            Recovery { state, phase: RecoveryPhase::Ended },
            RecoveryAction::Wait { stop_events: false },
        ),
        (RecoveryPhase::Reporting { required }, RecoveryInput::Reported { taken }) => {
            if required && !taken {
                (
                    Recovery { state, phase: RecoveryPhase::Ended },
                    RecoveryAction::End { stop_events: false },
                )
            } else {
                (
                    Recovery { state, phase: RecoveryPhase::Idle },
                    RecoveryAction::Wait { stop_events: false },
                )
            }
        },
        (RecoveryPhase::Idle, RecoveryInput::CommandsClosed) => (
            Recovery { state, phase: RecoveryPhase::Ended },
            RecoveryAction::End { stop_events: false },
        ),
        (RecoveryPhase::Idle, RecoveryInput::Shutdown) => (
            Recovery { state, phase: RecoveryPhase::Ended },
            RecoveryAction::End { stop_events: state.events_open },
        ),
        (RecoveryPhase::Idle, RecoveryInput::SessionEvent(event)) => {
            let event = state.session_event(event);
            (
                Recovery { state, phase: RecoveryPhase::Reporting { required: true } },
                RecoveryAction::Report { stop_events: true, event },
            )
        },
        (
            RecoveryPhase::Idle,
            RecoveryInput::Recover { request_generation, device },
        ) => {
            let stop_events = state.events_open;
            match state.begin_attempt() {
                None => (
                    Recovery { state, phase: RecoveryPhase::Reporting { required: false } },
                    RecoveryAction::Report {
                        stop_events: false,
                        event: generations_exhausted(request_generation, device),
                    },
                ),
                Some(session_generation) => (
                    Recovery {
                        state,
                        phase: RecoveryPhase::Retiring(
                            RecoveryAttempt { request_generation, device, session_generation },
                        ),
                    },
                    RecoveryAction::Retire { stop_events },
                ),
            }
        },
        (RecoveryPhase::Retiring(attempt), RecoveryInput::Retired(reply)) => {
            match reply {
                Ok(cleanup_error) => {
                    let request_generation: u64 = attempt.request_generation;
                    let session_generation = attempt.session_generation;
                    let retired = RetiredAttempt {
                        attempt,
                        retired_session_cleanup_error: cleanup_error,
                    };
                    (
                        Recovery { state, phase: RecoveryPhase::Creating(retired) },
                        RecoveryAction::Create { request_generation, session_generation },
                    )
                },
                Err(text) => reporting(state, false, attempt, retire_failed(text.as_str())),
            }
        },
        (RecoveryPhase::Creating(retired), RecoveryInput::Created(made)) => match created(made) {
            Ok(()) => (
                Recovery { state, phase: RecoveryPhase::Validating(retired) },
                RecoveryAction::Validate,
            ),
            Err(error) => reporting(state, false, retired.attempt, error),
        },
        (RecoveryPhase::Validating(retired), RecoveryInput::Validated(verdict)) => match verdict {
            Ok(()) => {
                let session_generation = retired.attempt.session_generation;
                (
                    Recovery { state, phase: RecoveryPhase::Installing(retired) },
                    RecoveryAction::Install { session_generation },
                )
            },
            Err(error) => (
                Recovery { state, phase: RecoveryPhase::Rejecting { retired, error } },
                RecoveryAction::CleanUp,
            ),
        },
        (RecoveryPhase::Rejecting { retired, error }, RecoveryInput::CleanedUp(cleanup)) => {
            let failure = incompatible(error.as_str(), cleanup);
            reporting(state, false, retired.attempt, failure)
        },
        (RecoveryPhase::Installing(retired), RecoveryInput::Installed(reply)) => match reply {
            Ok(installed) => {
                state.installed();
                (
                    Recovery { state, phase: RecoveryPhase::Reporting { required: true } },
                    RecoveryAction::Report { stop_events: false, event: retired.ready(installed) },
                )
            },
            Err(text) => reporting(state, true, retired.attempt, install_failed(text.as_str())),
        },
        (phase, _) => (
            Recovery { state, phase },
            RecoveryAction::Wait { stop_events: false },
        ),
    }
}

/// Session generations never go back, and every attempt has one of its own,
/// also one that is cancelled or fails.
pub proof fn attempts_use_new_generations(
    before: Recovery,
    input: RecoveryInput,
    after: Recovery,
    action: RecoveryAction,
)
    requires
        recovery_reacts(before, input, after, action),
    ensures
        after.state.last_session_generation@ >= before.state.last_session_generation@,
        action is Retire ==> after.state.last_session_generation@
            > before.state.last_session_generation@,
        action is Retire ==> (after.phase matches RecoveryPhase::Retiring(attempt)
            && attempt.session_generation == after.state.last_session_generation),
{
}

/// A session is made only once the one before is retired, and installed only
/// once it fits the display.
pub proof fn sessions_are_replaced_in_order(
    before: Recovery,
    input: RecoveryInput,
    after: Recovery,
    action: RecoveryAction,
)
    requires
        recovery_reacts(before, input, after, action),
    ensures
        action is Create ==> before.phase is Retiring && (input matches RecoveryInput::Retired(
            reply,
        ) && reply is Ok),
        action is Install ==> before.phase is Validating && (
        input matches RecoveryInput::Validated(verdict) && verdict is Ok),
{
}

/// One step of a recovery.
pub struct RecoveryStep {
    pub before: Recovery,
    pub input: RecoveryInput,
    pub after: Recovery,
    pub action: RecoveryAction,
}

/// The steps follow one another from the start.
pub open spec fn recovery_trace(start: Recovery, steps: Seq<RecoveryStep>) -> bool {
    forall|i: int|
        0 <= i < steps.len() ==> {
            let step = #[trigger] steps[i];
            &&& recovery_reacts(step.before, step.input, step.after, step.action)
            &&& step.before == trace_end(start, steps.take(i))
        }
}

/// Where the steps lead.
pub open spec fn trace_end(start: Recovery, steps: Seq<RecoveryStep>) -> Recovery {
    if steps.len() == 0 {
        start
    } else {
        steps.last().after
    }
}

/// The session generations that the factory was asked for, in order.
pub open spec fn generations_asked(steps: Seq<RecoveryStep>) -> Seq<u64>
    decreases steps.len(),
{
    if steps.len() == 0 {
        Seq::empty()
    } else {
        let earlier = generations_asked(steps.drop_last());
        match steps.last().action {
            RecoveryAction::Create { session_generation, .. } => earlier.push(session_generation@),
            _ => earlier,
        }
    }
}

/// How many requests were taken up while there was a generation for them.
pub open spec fn requests_taken(steps: Seq<RecoveryStep>) -> nat
    decreases steps.len(),
{
    if steps.len() == 0 {
        0
    } else {
        let step = steps.last();
        requests_taken(steps.drop_last()) + (if step.before.phase is Idle && step.input is Recover
            && step.before.state.last_session_generation@ < u64::MAX {
            1nat
        } else {
            0nat
        })
    }
}

/// Every session could be retired.
pub open spec fn all_retire(steps: Seq<RecoveryStep>) -> bool {
    forall|i: int|
        0 <= i < steps.len() ==> ((#[trigger] steps[i]).input matches RecoveryInput::Retired(reply)
            ==> reply is Ok)
}

/// While every session can be retired, the factory is asked once for every
/// request that is taken up, in order, each time for the generation after the
/// one before: also where an earlier attempt failed or was cancelled. Only the
/// request whose session is still being retired has not got there yet.
pub proof fn every_request_reaches_the_factory(start: Recovery, steps: Seq<RecoveryStep>)
    requires
        start.phase is Idle,
        recovery_trace(start, steps),
        all_retire(steps),
    ensures
        ({
            let first = start.state.last_session_generation@;
            let end = trace_end(start, steps);
            let asked = generations_asked(steps);
            &&& end.state.last_session_generation@ == first + requests_taken(steps)
            &&& asked.len() + (if end.phase is Retiring {
                1nat
            } else {
                0nat
            }) == requests_taken(steps)
            &&& forall|i: int| 0 <= i < asked.len() ==> #[trigger] asked[i] == first + 1 + i
            &&& end.phase matches RecoveryPhase::Retiring(attempt) ==> attempt.session_generation
                == end.state.last_session_generation
        }),
    decreases steps.len(),
{
    if steps.len() > 0 {
        let earlier = steps.drop_last();
        assert(earlier =~= steps.take(steps.len() - 1));
        assert forall|i: int| 0 <= i < earlier.len() implies {
            let step = #[trigger] earlier[i];
            &&& recovery_reacts(step.before, step.input, step.after, step.action)
            &&& step.before == trace_end(start, earlier.take(i))
        } by {
            assert(earlier[i] == steps[i]);
            assert(earlier.take(i) =~= steps.take(i));
        }
        assert forall|i: int| 0 <= i < earlier.len() implies ((
        #[trigger] earlier[i]).input matches RecoveryInput::Retired(reply) ==> reply is Ok) by {
            assert(earlier[i] == steps[i]);
        }
        every_request_reaches_the_factory(start, earlier);
        let step = steps[steps.len() - 1];
        assert(recovery_reacts(step.before, step.input, step.after, step.action));
        assert(step.before == trace_end(start, earlier));
    }
}

/// A report of a failure that nobody takes does not end the recovery.
pub proof fn untaken_failures_are_passed_over(
    before: Recovery,
    input: RecoveryInput,
    after: Recovery,
    action: RecoveryAction,
)
    requires
        recovery_reacts(before, input, after, action),
    ensures
        action matches RecoveryAction::Report { event, .. } ==> after.phase == (
        RecoveryPhase::Reporting { required: !(event is Failed) }),
{
}

/// An attempt that was given up is not told; one that failed names its request and its device,
/// with the reason whole if that fits in 512 bytes.
pub proof fn given_up_attempts_are_not_told(
    request_generation: u64,
    device: DeviceInfo,
    error: AttemptError,
    report: Option<DeviceSessionRecoveryEvent>,
)
    requires
        tells_attempt(request_generation, device, error, report),
    ensures
        report is None <==> error is Cancelled,
        report is Some ==> report->0 is Failed && report->0->Failed_request_generation
            == request_generation && report->0->Failed_device == device,
        report is Some && vstd::utf8::encode_utf8(error->Failed_0@).len() <= 512
            ==> report->0->Failed_error@ == error->Failed_0@,
{
}

/// A session that does not fit is told with the reason, and with what its cleanup said.
pub proof fn misfits_are_told_with_their_cleanup(
    error: Seq<char>,
    cleanup: Option<String>,
    failure: AttemptError,
)
    requires
        tells_misfit(error, cleanup, failure),
    ensures
        failure is Failed,
        cleanup is None ==> failure->Failed_0@.skip(failure->Failed_0@.len() - error.len())
            == error,
        cleanup is Some ==> failure->Failed_0@.skip(
            failure->Failed_0@.len() - cleanup->0@.len(),
        ) == cleanup->0@,
{
    let text = failure->Failed_0@;
    if cleanup is None {
        assert(text.skip(text.len() - error.len()) =~= error);
    } else {
        assert(text.skip(text.len() - cleanup->0@.len()) =~= cleanup->0@);
    }
}

/// A request is answered about itself: a session that is ready is told with the request, the
/// device and the complaint of the session before; a failure with the request and the device.
pub proof fn requests_are_answered_about_themselves(
    before: Recovery,
    input: RecoveryInput,
    after: Recovery,
    action: RecoveryAction,
)
    requires
        recovery_reacts(before, input, after, action),
    ensures
        before.phase is Installing && input is Installed && input->Installed_0 is Ok ==> {
            let retired = before.phase->Installing_0;
            let event = action->Report_event;
            &&& action is Report && !action->Report_stop_events
            &&& event is Ready
            &&& event->Ready_request_generation == retired.attempt.request_generation
            &&& event->Ready_device == retired.attempt.device
            &&& event->Ready_session_generation == input->Installed_0->Ok_0
            &&& event->retired_session_cleanup_error == retired.retired_session_cleanup_error
            &&& after.state.events_open
        },
        action matches RecoveryAction::Report { stop_events, event } ==> (event is Failed ==> {
            &&& before.phase matches RecoveryPhase::Retiring(attempt)
                ==> event->Failed_request_generation == attempt.request_generation
                && event->Failed_device == attempt.device
            &&& before.phase matches RecoveryPhase::Creating(retired)
                ==> event->Failed_request_generation == retired.attempt.request_generation
                && event->Failed_device == retired.attempt.device
            &&& before.phase matches RecoveryPhase::Installing(retired)
                ==> event->Failed_request_generation == retired.attempt.request_generation
                && event->Failed_device == retired.attempt.device
            &&& stop_events <==> before.phase is Installing
        }),
        before.phase is Idle && input is Recover ==> {
            &&& action is Retire <==> before.state.last_session_generation@ < 0xffff_ffff_ffff_ffff
            &&& action is Retire ==> after.phase->Retiring_0.request_generation
                == input->Recover_request_generation && after.phase->Retiring_0.device
                == input->Recover_device
            &&& action is Retire ==> (action->Retire_stop_events <==> before.state.events_open)
            &&& !(action is Retire) ==> action is Report && action->Report_event is Failed
        },
        before.phase is Idle && input is SessionEvent ==> action is Report && action->Report_event
            is TransportFailed && action->Report_stop_events && !after.state.events_open,
        before.phase is Creating && input is Created && input->Created_0 is Err && input->Created_0->Err_0
            is Cancelled ==> after.phase is Idle && action is Wait,
        before.phase is Validating && input is Validated && input->Validated_0 is Err ==> action
            is CleanUp && after.phase is Rejecting,
        action is Create ==> action->Create_request_generation
            == before.phase->Retiring_0.request_generation && action->Create_session_generation
            == before.phase->Retiring_0.session_generation,
        action is Install ==> action->Install_session_generation
            == before.phase->Validating_0.attempt.session_generation,
{
}

/// A recovery ends when it is told to, or when nobody takes what it has to tell; nothing else
/// ends it, and it does nothing after that.
pub proof fn recoveries_end_when_told(
    before: Recovery,
    input: RecoveryInput,
    after: Recovery,
    action: RecoveryAction,
)
    requires
        recovery_reacts(before, input, after, action),
    ensures
        action is End <==> (before.phase is Idle && (input is Shutdown || input is CommandsClosed))
            || (before.phase == (RecoveryPhase::Reporting { required: true }) && input
            == (RecoveryInput::Reported { taken: false })),
        action is End ==> after.phase is Ended,
        action is End ==> (action->End_stop_events <==> input is Shutdown
            && before.state.events_open),
        before.phase is Ended ==> after == before && action is Wait,
        after.phase is Ended ==> before.phase is Ended || action is End,
        action is Wait ==> !action->Wait_stop_events,
        before.phase is Reporting && input is Reported && !(action is End) ==> after.phase is Idle
            && action is Wait && after.state == before.state,
{
}

/// A failed attempt tells its reason whole, if that fits in 512 bytes.
pub proof fn failed_attempts_tell_their_reason(
    before: Recovery,
    input: RecoveryInput,
    after: Recovery,
    action: RecoveryAction,
)
    requires
        recovery_reacts(before, input, after, action),
    ensures
        before.phase is Creating ==> (input matches RecoveryInput::Created(
            Err(DeviceSessionFactoryError::Failed(text)),
        ) ==> action is Report && action->Report_event is Failed && (vstd::utf8::encode_utf8(
            text@,
        ).len() <= 512 ==> action->Report_event->Failed_error@ == text@)),
        before.phase is Retiring ==> (input matches RecoveryInput::Retired(Err(text)) ==> ({
            let told = "retire current Device session: "@ + text@;
            action is Report && action->Report_event is Failed && (vstd::utf8::encode_utf8(
                told,
            ).len() <= 512 ==> action->Report_event->Failed_error@ == told)
        })),
        before.phase is Installing ==> (input matches RecoveryInput::Installed(Err(text)) ==> ({
            let told = "install recovered Device session: "@ + text@;
            action is Report && action->Report_event is Failed && (vstd::utf8::encode_utf8(
                told,
            ).len() <= 512 ==> action->Report_event->Failed_error@ == told)
        })),
{
}

} // verus!
