//! The way of an event of the grant's holder, from the kernel to its end.
//!
//! Each phase names what is done next. The reply to it leads to the next phase,
//! to the end of the event, or to the end of the owner.

use crate::castkms_actor::actor::{
    cec_without_bridge, grant_steps, poll_steps, revoked_steps, steps_view, ActorStep,
    ActorStepView, ActorView, CaptureActor,
};
use crate::castkms_actor::cec::{
    admit_cec_transmit, authority_operation, control_completion, handle_cec_transmit,
    synchronize_cec_authority, AuthorityStep, CecCompletion, CecStep, CecTransmitAdmission,
    CecTransmitEvent, ControlOutcome,
};
use crate::castkms_actor::frames::CaptureFrameEvent;
use crate::castkms_actor::stop::fail_active;
use crate::cec_bridge::{action_for, pressed_after, ActionView};
use crate::device_control_port::{ControlView, DeviceControlOperation};
use crate::display_state::DisplayGrantState;
use crate::kernel_display_port::{
    kernel_error, KernelDisplayError, KernelDisplayObservation, KernelErrorView,
};
use vstd::prelude::*;

verus! {

/// What the owner has to take in beside its commands and its source.
#[derive(Debug)]
pub enum HolderEvent {
    /// It is time to look at the display again.
    PollDue,
    CaptureFrame(CaptureFrameEvent),
    GrantState(DisplayGrantState),
    GrantRevoked,
    CecTransmit(CecTransmitEvent),
    /// The device has answered to a message.
    CecControlled(ControlOutcome),
    /// The kernel tells something that is not known here.
    Unknown,
}

/// What an event waits for.
#[derive(Debug)]
pub enum HolderPhase {
    /// The display is looked at, as from time to time.
    Polling,
    /// The client takes in what an event says of the grant.
    ReconcilingEvent { state: DisplayGrantState },
    /// The remote-control transport follows what the event says.
    FollowingEvent { state: DisplayGrantState, step: AuthorityStep },
    /// The display is looked at after the event.
    ObservingEvent { state: DisplayGrantState },
    /// The kernel is asked for the grant, because a message came to a transport
    /// that is not online.
    RecheckingCec { event: CecTransmitEvent },
    /// The client takes in the state of the grant.
    ReconcilingCec { event: CecTransmitEvent, active: bool },
    /// The transport is brought online.
    FollowingCec { event: CecTransmitEvent },
    /// The message is recorded at the kernel.
    RecordingCec { event: CecTransmitEvent },
    /// The message is answered, and the reply sent after that, if there is one.
    CompletingCec {
        event: CecTransmitEvent,
        completion: CecCompletion,
        operation: &'static str,
        reply: Option<Vec<u8>>,
    },
    /// A reply is sent to the kernel.
    InjectingCec { message: Vec<u8> },
    /// The first of the steps is done.
    Doing { steps: Vec<ActorStep> },
    /// The transport follows the grant; the rest comes after that.
    Following { step: AuthorityStep, rest: Vec<ActorStep> },
    /// The display's owner is told of a generation that has failed. The owner of
    /// the capture ends after that where the generation was not cleaned up.
    TellingFailure {
        diagnostic: String,
        end: Result<(), KernelDisplayError>,
        rest: Vec<ActorStep>,
    },
}

/// The contents of a [`HolderPhase`].
pub enum HolderPhaseView {
    Polling,
    ReconcilingEvent { state: DisplayGrantState },
    FollowingEvent { state: DisplayGrantState, step: AuthorityStep },
    ObservingEvent { state: DisplayGrantState },
    RecheckingCec { event: CecTransmitEvent },
    ReconcilingCec { event: CecTransmitEvent, active: bool },
    FollowingCec { event: CecTransmitEvent },
    RecordingCec { event: CecTransmitEvent },
    CompletingCec {
        event: CecTransmitEvent,
        completion: CecCompletion,
        operation: Seq<char>,
        reply: Option<Seq<u8>>,
    },
    InjectingCec { message: Seq<u8> },
    Doing { steps: Seq<ActorStepView> },
    Following { step: AuthorityStep, rest: Seq<ActorStepView> },
    TellingFailure {
        diagnostic: Seq<char>,
        end: Option<KernelErrorView>,
        rest: Seq<ActorStepView>,
    },
}

impl View for HolderPhase {
    type V = HolderPhaseView;

    open spec fn view(&self) -> HolderPhaseView {
        match *self {
            HolderPhase::Polling => HolderPhaseView::Polling,
            HolderPhase::ReconcilingEvent { state } => HolderPhaseView::ReconcilingEvent { state },
            HolderPhase::FollowingEvent { state, step } => HolderPhaseView::FollowingEvent {
                state,
                step,
            },
            HolderPhase::ObservingEvent { state } => HolderPhaseView::ObservingEvent { state },
            HolderPhase::RecheckingCec { event } => HolderPhaseView::RecheckingCec { event },
            HolderPhase::ReconcilingCec { event, active } => HolderPhaseView::ReconcilingCec {
                event,
                active,
            },
            HolderPhase::FollowingCec { event } => HolderPhaseView::FollowingCec { event },
            HolderPhase::RecordingCec { event } => HolderPhaseView::RecordingCec { event },
            HolderPhase::CompletingCec {
                event,
                completion,
                operation,
                reply,
            } => HolderPhaseView::CompletingCec {
                event,
                completion,
                operation: operation@,
                reply: match reply {
                    Some(message) => Some(message@),
                    None => None,
                },
            },
            HolderPhase::InjectingCec { message } => HolderPhaseView::InjectingCec {
                message: message@,
            },
            HolderPhase::Doing { steps } => HolderPhaseView::Doing { steps: steps_view(steps@) },
            HolderPhase::Following { step, rest } => HolderPhaseView::Following {
                step,
                rest: steps_view(rest@),
            },
            HolderPhase::TellingFailure {
                diagnostic,
                end,
                rest,
            } => HolderPhaseView::TellingFailure {
                diagnostic: diagnostic@,
                end: match end {
                    Ok(_) => None,
                    Err(error) => Some(error@),
                },
                rest: steps_view(rest@),
            },
        }
    }
}

/// What came of it.
#[derive(Debug)]
pub enum HolderReply {
    Done(Result<(), String>),
    Observed(Result<KernelDisplayObservation, KernelDisplayError>),
    /// The state of the grant.
    Grant(Result<DisplayGrantState, String>),
    Recorded(Result<CecTransmitAdmission, String>),
    /// What came of the stop of the generation.
    Stopped(Result<(), KernelDisplayError>),
}

/// How an event goes on.
#[derive(Debug)]
pub enum HolderProgress {
    Next(HolderPhase),
    /// The frame goes its own way.
    Frame(CaptureFrameEvent),
    /// The device is asked, and answers later.
    Control(DeviceControlOperation),
    Done,
    /// The owner ends.
    End(KernelDisplayError),
}

/// The contents of a [`HolderProgress`].
pub enum HolderProgressView {
    Next(HolderPhaseView),
    Frame(CaptureFrameEvent),
    Control(ControlView),
    Done,
    End(KernelErrorView),
}

impl View for HolderProgress {
    type V = HolderProgressView;

    open spec fn view(&self) -> HolderProgressView {
        match *self {
            HolderProgress::Next(phase) => HolderProgressView::Next(phase@),
            HolderProgress::Frame(frame) => HolderProgressView::Frame(frame),
            HolderProgress::Control(operation) => HolderProgressView::Control(operation@),
            HolderProgress::Done => HolderProgressView::Done,
            HolderProgress::End(error) => HolderProgressView::End(error@),
        }
    }
}

/// The owner ends with an error of the operation.
pub open spec fn ends(operation: Seq<char>, message: Seq<char>) -> HolderProgressView {
    HolderProgressView::End(kernel_error(operation, message))
}

/// How the transport follows the right to drive the connector.
pub open spec fn authority_due(bound: bool, active: bool) -> AuthorityStep {
    if !bound {
        AuthorityStep::Nothing
    } else if active {
        AuthorityStep::BringOnline
    } else {
        AuthorityStep::DropPendingAndSuspend
    }
}

/// What a failure to follow is called.
pub open spec fn authority_name(step: AuthorityStep) -> Seq<char> {
    if step == AuthorityStep::DropPendingAndSuspend {
        "suspend connector CEC transport authority"@
    } else {
        "resume connector CEC transport authority"@
    }
}

/// The owner once the transport follows: with the right the pending message is
/// lost.
pub open spec fn follows(actor: ActorView, step: AuthorityStep) -> ActorView {
    if step == AuthorityStep::DropPendingAndSuspend {
        ActorView { pending: None, ..actor }
    } else {
        actor
    }
}

/// Go on with the steps that are left. A transport that is not bound has nothing
/// to follow.
pub open spec fn settled(actor: ActorView, steps: Seq<ActorStepView>, bound: bool) -> (
    ActorView,
    HolderProgressView,
)
    decreases steps.len(),
{
    if steps.len() == 0 {
        (actor, HolderProgressView::Done)
    } else {
        match steps[0] {
            ActorStepView::SynchronizeCec { authority_active } => {
                let step = authority_due(bound, authority_active);
                if step == AuthorityStep::Nothing {
                    settled(actor, steps.skip(1), bound)
                } else {
                    (
                        follows(actor, step),
                        HolderProgressView::Next(
                            HolderPhaseView::Following { step, rest: steps.skip(1) },
                        ),
                    )
                }
            },
            _ => (actor, HolderProgressView::Next(HolderPhaseView::Doing { steps })),
        }
    }
}

/// Go on with a message whose transport may be used: it is recorded, unless
/// nothing translates it or a device still works on another.
pub open spec fn admitted(actor: ActorView, event: CecTransmitEvent) -> HolderProgressView {
    if actor.bridge is None {
        ends(
            "handle CastKMS CEC transmit"@,
            "CEC event arrived without an enabled Device control port"@,
        )
    } else if actor.pending is Some {
        ends(
            "handle CastKMS CEC transmit"@,
            "a Device control operation is already pending"@,
        )
    } else {
        HolderProgressView::Next(HolderPhaseView::RecordingCec { event })
    }
}

/// How a recorded message goes on, by what it means.
pub open spec fn translated(event: CecTransmitEvent, action: ActionView) -> HolderProgressView {
    match action {
        ActionView::Acknowledge => HolderProgressView::Next(
            HolderPhaseView::CompletingCec {
                event,
                completion: CecCompletion::Succeeded,
                operation: "acknowledge CastKMS CEC transmit"@,
                reply: None,
            },
        ),
        ActionView::NotAcknowledged => HolderProgressView::Next(
            HolderPhaseView::CompletingCec {
                event,
                completion: CecCompletion::NotAcknowledged { attempts: event.attempts },
                operation: "reject CastKMS CEC transmit"@,
                reply: None,
            },
        ),
        ActionView::Reply(message) => HolderProgressView::Next(
            HolderPhaseView::CompletingCec {
                event,
                completion: CecCompletion::Succeeded,
                operation: "acknowledge CastKMS CEC request"@,
                reply: Some(message),
            },
        ),
        ActionView::Control(control) => HolderProgressView::Control(control),
    }
}

/// Go on once a message was recorded, or could not be.
pub open spec fn recorded(
    actor: ActorView,
    event: CecTransmitEvent,
    admission: Result<CecTransmitAdmission, String>,
) -> (ActorView, HolderProgressView) {
    if actor.bridge is None || actor.pending is Some {
        (actor, admitted(actor, event))
    } else {
        match admission {
            Err(text) => (actor, ends("record CastKMS CEC transmit"@, text@)),
            Ok(CecTransmitAdmission::Stale) => (actor, HolderProgressView::Done),
            Ok(CecTransmitAdmission::Accepted) => {
                let pressed = actor.bridge->0;
                let action = action_for(pressed, event.message@);
                (
                    ActorView {
                        bridge: Some(pressed_after(pressed, event.message@)),
                        pending: if action is Control {
                            Some(event)
                        } else {
                            None
                        },
                        ..actor
                    },
                    translated(event, action),
                )
            },
        }
    }
}

/// How an event begins. `online` and `bound` tell of the remote-control
/// transport.
pub open spec fn event_begins(actor: ActorView, event: HolderEvent, online: bool, bound: bool) -> (
    ActorView,
    HolderProgressView,
) {
    match event {
        HolderEvent::PollDue => (actor, HolderProgressView::Next(HolderPhaseView::Polling)),
        HolderEvent::CaptureFrame(frame) => (actor, HolderProgressView::Frame(frame)),
        HolderEvent::GrantState(state) => (
            actor,
            HolderProgressView::Next(HolderPhaseView::ReconcilingEvent { state }),
        ),
        HolderEvent::GrantRevoked => settled(actor, revoked_steps(actor), bound),
        HolderEvent::CecTransmit(event) => (
            actor,
            if online {
                admitted(actor, event)
            } else {
                HolderProgressView::Next(HolderPhaseView::RecheckingCec { event })
            },
        ),
        HolderEvent::CecControlled(outcome) => match actor.pending {
            None => (actor, HolderProgressView::Done),
            Some(event) => (
                ActorView { pending: None, ..actor },
                HolderProgressView::Next(
                    HolderPhaseView::CompletingCec {
                        event,
                        completion: match outcome {
                            ControlOutcome::Done => CecCompletion::Succeeded,
                            ControlOutcome::Refused => CecCompletion::NotAcknowledged {
                                attempts: event.attempts,
                            },
                            ControlOutcome::TaskFailed => CecCompletion::Failed,
                        },
                        operation: "complete Device-backed CEC transmit"@,
                        reply: None,
                    },
                ),
            ),
        },
        HolderEvent::Unknown => (actor, HolderProgressView::Done),
    }
}

/// Go on once the first of the steps was done. Nobody has to be there to be told
/// something.
pub open spec fn step_done(
    actor: ActorView,
    steps: Seq<ActorStepView>,
    result: Result<(), String>,
    bound: bool,
) -> (ActorView, HolderProgressView) {
    match (steps[0], result) {
        (ActorStepView::ReconcileGrant { operation }, Err(text)) => (actor, ends(operation, text@)),
        (ActorStepView::FailActive(_), _) => (
            actor,
            HolderProgressView::Next(HolderPhaseView::Doing { steps }),
        ),
        _ => settled(actor, steps.skip(1), bound),
    }
}

/// Go on once the generation was stopped that is to fail.
pub open spec fn failing(
    steps: Seq<ActorStepView>,
    cleanup: Result<(), KernelDisplayError>,
) -> HolderProgressView {
    match steps[0] {
        ActorStepView::FailActive(text) => HolderProgressView::Next(
            match cleanup {
                Ok(_) => HolderPhaseView::TellingFailure {
                    diagnostic: text,
                    end: None,
                    rest: steps.skip(1),
                },
                Err(failure) => HolderPhaseView::TellingFailure {
                    diagnostic: text + "; cleanup also failed: "@ + failure@.text(),
                    end: Some(
                        kernel_error(
                            "recover failed media generation"@,
                            "cleanup failed after media error: "@ + failure@.text(),
                        ),
                    ),
                    rest: steps.skip(1),
                },
            },
        ),
        _ => HolderProgressView::Next(HolderPhaseView::Doing { steps }),
    }
}

/// How an event goes on after a reply. What is not waited for changes nothing.
pub open spec fn event_goes_on(
    actor: ActorView,
    phase: HolderPhaseView,
    reply: HolderReply,
    bound: bool,
) -> (ActorView, HolderProgressView) {
    match (phase, reply) {
        (HolderPhaseView::Polling, HolderReply::Observed(Err(error))) => (
            actor,
            HolderProgressView::End(error@),
        ),
        (HolderPhaseView::Polling, HolderReply::Observed(Ok(observation))) => settled(
            ActorView { current: observation, ..actor },
            poll_steps(actor, observation),
            bound,
        ),
        (HolderPhaseView::ReconcilingEvent { .. }, HolderReply::Done(Err(text))) => (
            actor,
            ends("reconcile CastKMS grant-state event"@, text@),
        ),
        (HolderPhaseView::ReconcilingEvent { state }, HolderReply::Done(Ok(_))) => {
            let step = authority_due(bound, state == DisplayGrantState::Active);
            (
                follows(actor, step),
                HolderProgressView::Next(
                    if step == AuthorityStep::Nothing {
                        HolderPhaseView::ObservingEvent { state }
                    } else {
                        HolderPhaseView::FollowingEvent { state, step }
                    },
                ),
            )
        },
        (HolderPhaseView::FollowingEvent { step, .. }, HolderReply::Done(Err(text))) => (
            actor,
            ends(authority_name(step), text@),
        ),
        (HolderPhaseView::FollowingEvent { state, .. }, HolderReply::Done(Ok(_))) => (
            actor,
            HolderProgressView::Next(HolderPhaseView::ObservingEvent { state }),
        ),
        (HolderPhaseView::ObservingEvent { .. }, HolderReply::Observed(Err(error))) => (
            actor,
            HolderProgressView::End(error@),
        ),
        (HolderPhaseView::ObservingEvent { state }, HolderReply::Observed(Ok(observation))) => settled(
            ActorView { current: observation, ..actor },
            grant_steps(actor, state, observation),
            bound,
        ),
        (HolderPhaseView::RecheckingCec { .. }, HolderReply::Grant(Err(text))) => (
            actor,
            ends("recheck CEC transmit authority"@, text@),
        ),
        (HolderPhaseView::RecheckingCec { event }, HolderReply::Grant(Ok(state))) => (
            actor,
            HolderProgressView::Next(
                HolderPhaseView::ReconcilingCec {
                    event,
                    active: state == DisplayGrantState::Active,
                },
            ),
        ),
        (HolderPhaseView::ReconcilingCec { .. }, HolderReply::Done(Err(text))) => (
            actor,
            ends("reconcile CEC transmit authority"@, text@),
        ),
        (HolderPhaseView::ReconcilingCec { event, active }, HolderReply::Done(Ok(_))) => (
            actor,
            if active && bound {
                HolderProgressView::Next(HolderPhaseView::FollowingCec { event })
            } else {
                admitted(actor, event)
            },
        ),
        (HolderPhaseView::FollowingCec { .. }, HolderReply::Done(Err(text))) => (
            actor,
            ends("resume connector CEC transport authority"@, text@),
        ),
        (HolderPhaseView::FollowingCec { event }, HolderReply::Done(Ok(_))) => (
            actor,
            admitted(actor, event),
        ),
        (HolderPhaseView::RecordingCec { event }, HolderReply::Recorded(admission)) => recorded(
            actor,
            event,
            admission,
        ),
        (HolderPhaseView::CompletingCec { operation, .. }, HolderReply::Done(Err(text))) => (
            actor,
            ends(operation, text@),
        ),
        (HolderPhaseView::CompletingCec { reply, .. }, HolderReply::Done(Ok(_))) => (
            actor,
            match reply {
                Some(message) => HolderProgressView::Next(
                    HolderPhaseView::InjectingCec { message },
                ),
                None => HolderProgressView::Done,
            },
        ),
        (HolderPhaseView::InjectingCec { .. }, HolderReply::Done(Err(text))) => (
            actor,
            ends("inject CastKMS CEC response"@, text@),
        ),
        (HolderPhaseView::InjectingCec { .. }, HolderReply::Done(Ok(_))) => (
            actor,
            HolderProgressView::Done,
        ),
        (HolderPhaseView::Doing { steps }, HolderReply::Done(result)) => if steps.len() == 0 {
            (actor, HolderProgressView::Done)
        } else {
            step_done(actor, steps, result, bound)
        },
        (HolderPhaseView::Doing { steps }, HolderReply::Stopped(cleanup)) => (
            actor,
            if steps.len() == 0 {
                HolderProgressView::Done
            } else {
                failing(steps, cleanup)
            },
        ),
        (HolderPhaseView::Following { step, .. }, HolderReply::Done(Err(text))) => (
            actor,
            ends(authority_name(step), text@),
        ),
        (HolderPhaseView::Following { rest, .. }, HolderReply::Done(Ok(_))) => settled(
            actor,
            rest,
            bound,
        ),
        (HolderPhaseView::TellingFailure { end, rest, .. }, HolderReply::Done(_)) => match end {
            Some(error) => (actor, HolderProgressView::End(error)),
            None => settled(actor, rest, bound),
        },
        _ => (actor, HolderProgressView::Next(phase)),
    }
}

/// The events of the grant's holder, or the end of the owner where they cannot
/// be read.
pub fn events_read(result: Result<Vec<HolderEvent>, String>) -> (events: Result<
    Vec<HolderEvent>,
    KernelDisplayError,
>)
    ensures
        match result {
            Ok(batch) => events == Ok::<_, KernelDisplayError>(batch),
            Err(text) => events is Err && events->Err_0@ == kernel_error(
                "read grant-holder event stream"@,
                text@,
            ),
        },
{
    match result {
        Ok(batch) => Ok(batch),
        Err(text) => Err(
            KernelDisplayError { operation: "read grant-holder event stream", message: text },
        ),
    }
}

fn end(operation: &'static str, message: String) -> (progress: HolderProgress)
    ensures
        progress@ == ends(operation@, message@),
{
    HolderProgress::End(KernelDisplayError { operation, message })
}

fn settle(actor: &mut CaptureActor, steps: Vec<ActorStep>, bound: bool) -> (progress:
    HolderProgress)
    ensures
        (final(actor)@, progress@) == settled(old(actor)@, steps_view(steps@), bound),
    decreases steps@.len(),
{
    let ghost all = steps_view(steps@);
    let mut rest = steps;
    if rest.len() == 0 {
        return HolderProgress::Done;
    }
    let follow = match &rest[0] {
        ActorStep::SynchronizeCec { authority_active } => Some(*authority_active),
        _ => None,
    };
    match follow {
        None => HolderProgress::Next(HolderPhase::Doing { steps: rest }),
        Some(active) => {
            rest.remove(0);
            proof {
                assert(steps_view(rest@) =~= all.skip(1));
            }
            let step = synchronize_cec_authority(bound, active);
            if step == AuthorityStep::Nothing {
                return settle(actor, rest, bound);
            }
            follow_authority(actor, step);
            HolderProgress::Next(HolderPhase::Following { step, rest })
        },
    }
}

fn follow_authority(actor: &mut CaptureActor, step: AuthorityStep)
    ensures
        final(actor)@ == follows(old(actor)@, step),
{
    if step == AuthorityStep::DropPendingAndSuspend {
        actor.pending = None;
    }
}

fn begin_message(actor: &CaptureActor, event: CecTransmitEvent) -> (progress: HolderProgress)
    ensures
        progress@ == admitted(actor@, event),
{
    if actor.bridge.is_none() {
        return HolderProgress::End(cec_without_bridge());
    }
    match admit_cec_transmit(actor.pending.is_some()) {
        Err(error) => HolderProgress::End(error),
        Ok(()) => HolderProgress::Next(HolderPhase::RecordingCec { event }),
    }
}

fn message_recorded(
    actor: &mut CaptureActor,
    event: CecTransmitEvent,
    admission: Result<CecTransmitAdmission, String>,
) -> (progress: HolderProgress)
    ensures
        (final(actor)@, progress@) == recorded(old(actor)@, event, admission),
{
    if actor.pending.is_some() {
        return begin_message(actor, event);
    }
    let result = match &mut actor.bridge {
        None => Err(cec_without_bridge()),
        Some(bridge) => handle_cec_transmit(
            bridge,
            admission,
            event.message.as_slice(),
            event.attempts,
        ),
    };
    match result {
        Err(error) => HolderProgress::End(error),
        Ok(CecStep::Ignore) => HolderProgress::Done,
        Ok(CecStep::Complete { completion, operation }) => HolderProgress::Next(
            HolderPhase::CompletingCec { event, completion, operation, reply: None },
        ),
        Ok(CecStep::CompleteAndReply { message, operation, .. }) => HolderProgress::Next(
            HolderPhase::CompletingCec {
                event,
                completion: CecCompletion::Succeeded,
                operation,
                reply: Some(message),
            },
        ),
        Ok(CecStep::Control(operation)) => {
            actor.pending = Some(event);
            HolderProgress::Control(operation)
        },
    }
}

fn first_step_done(
    actor: &mut CaptureActor,
    steps: Vec<ActorStep>,
    result: Result<(), String>,
    bound: bool,
) -> (progress: HolderProgress)
    requires
        steps@.len() > 0,
    ensures
        (final(actor)@, progress@) == step_done(old(actor)@, steps_view(steps@), result, bound),
{
    let ghost all = steps_view(steps@);
    if let ActorStep::FailActive(_) = &steps[0] {
        return HolderProgress::Next(HolderPhase::Doing { steps });
    }
    let mut rest = steps;
    let first = rest.remove(0);
    proof {
        assert(steps_view(rest@) =~= all.skip(1));
        assert(all[0] == first@);
    }
    if let (ActorStep::ReconcileGrant { operation }, Err(text)) = (first, result) {
        return end(operation, text);
    }
    settle(actor, rest, bound)
}

fn generation_stopped(steps: Vec<ActorStep>, cleanup: Result<(), KernelDisplayError>) -> (progress:
    HolderProgress)
    requires
        steps@.len() > 0,
    ensures
        progress@ == failing(steps_view(steps@), cleanup),
{
    let ghost all = steps_view(steps@);
    if !matches!(&steps[0], ActorStep::FailActive(_)) {
        return HolderProgress::Next(HolderPhase::Doing { steps });
    }
    let mut rest = steps;
    let first = rest.remove(0);
    proof {
        assert(steps_view(rest@) =~= all.skip(1));
        assert(all[0] == first@);
    }
    match first {
        ActorStep::FailActive(text) => {
            let report = fail_active(text, cleanup);
            HolderProgress::Next(
                HolderPhase::TellingFailure {
                    diagnostic: report.diagnostic,
                    end: report.result,
                    rest,
                },
            )
        },
        _ => HolderProgress::Done,
    }
}

/// Begin with an event.
pub fn begin(actor: &mut CaptureActor, event: HolderEvent, online: bool, bound: bool) -> (progress:
    HolderProgress)
    ensures
        (final(actor)@, progress@) == event_begins(old(actor)@, event, online, bound),
{
    match event {
        HolderEvent::PollDue => HolderProgress::Next(HolderPhase::Polling),
        HolderEvent::CaptureFrame(frame) => HolderProgress::Frame(frame),
        HolderEvent::GrantState(state) => HolderProgress::Next(
            HolderPhase::ReconcilingEvent { state },
        ),
        HolderEvent::GrantRevoked => {
            let steps = actor.grant_revoked();
            settle(actor, steps, bound)
        },
        HolderEvent::CecTransmit(event) => {
            if online {
                begin_message(actor, event)
            } else {
                HolderProgress::Next(HolderPhase::RecheckingCec { event })
            }
        },
        HolderEvent::CecControlled(outcome) => match actor.pending.take() {
            None => HolderProgress::Done,
            Some(event) => {
                let completion = control_completion(outcome, event.attempts);
                HolderProgress::Next(
                    HolderPhase::CompletingCec {
                        event,
                        completion,
                        operation: "complete Device-backed CEC transmit",
                        reply: None,
                    },
                )
            },
        },
        HolderEvent::Unknown => HolderProgress::Done,
    }
}

/// Go on after a reply.
pub fn proceed(actor: &mut CaptureActor, phase: HolderPhase, reply: HolderReply, bound: bool) -> (
progress: HolderProgress)
    ensures
        (final(actor)@, progress@) == event_goes_on(old(actor)@, phase@, reply, bound),
{
    match (phase, reply) {
        (HolderPhase::Polling, HolderReply::Observed(Err(error))) => HolderProgress::End(error),
        (HolderPhase::Polling, HolderReply::Observed(Ok(observation))) => {
            let steps = actor.poll(observation);
            settle(actor, steps, bound)
        },
        (HolderPhase::ReconcilingEvent { .. }, HolderReply::Done(Err(text))) => end(
            "reconcile CastKMS grant-state event",
            text,
        ),
        (HolderPhase::ReconcilingEvent { state }, HolderReply::Done(Ok(()))) => {
            let step = synchronize_cec_authority(bound, state == DisplayGrantState::Active);
            follow_authority(actor, step);
            HolderProgress::Next(
                if step == AuthorityStep::Nothing {
                    HolderPhase::ObservingEvent { state }
                } else {
                    HolderPhase::FollowingEvent { state, step }
                },
            )
        },
        (HolderPhase::FollowingEvent { step, .. }, HolderReply::Done(Err(text))) => end(
            authority_operation(step),
            text,
        ),
        (HolderPhase::FollowingEvent { state, .. }, HolderReply::Done(Ok(()))) => {
            HolderProgress::Next(HolderPhase::ObservingEvent { state })
        },
        (HolderPhase::ObservingEvent { .. }, HolderReply::Observed(Err(error))) => {
            HolderProgress::End(error)
        },
        (HolderPhase::ObservingEvent { state }, HolderReply::Observed(Ok(observation))) => {
            let steps = actor.grant_changed(state, observation);
            settle(actor, steps, bound)
        },
        (HolderPhase::RecheckingCec { .. }, HolderReply::Grant(Err(text))) => end(
            "recheck CEC transmit authority",
            text,
        ),
        (HolderPhase::RecheckingCec { event }, HolderReply::Grant(Ok(state))) => {
            HolderProgress::Next(
                HolderPhase::ReconcilingCec { event, active: state == DisplayGrantState::Active },
            )
        },
        (HolderPhase::ReconcilingCec { .. }, HolderReply::Done(Err(text))) => end(
            "reconcile CEC transmit authority",
            text,
        ),
        (HolderPhase::ReconcilingCec { event, active }, HolderReply::Done(Ok(()))) => {
            if active && bound {
                HolderProgress::Next(HolderPhase::FollowingCec { event })
            } else {
                begin_message(actor, event)
            }
        },
        (HolderPhase::FollowingCec { .. }, HolderReply::Done(Err(text))) => end(
            "resume connector CEC transport authority",
            text,
        ),
        (HolderPhase::FollowingCec { event }, HolderReply::Done(Ok(()))) => begin_message(
            actor,
            event,
        ),
        (HolderPhase::RecordingCec { event }, HolderReply::Recorded(admission)) => message_recorded(
            actor,
            event,
            admission,
        ),
        (HolderPhase::CompletingCec { operation, .. }, HolderReply::Done(Err(text))) => end(
            operation,
            text,
        ),
        (HolderPhase::CompletingCec { reply, .. }, HolderReply::Done(Ok(()))) => match reply {
            Some(message) => HolderProgress::Next(HolderPhase::InjectingCec { message }),
            None => HolderProgress::Done,
        },
        (HolderPhase::InjectingCec { .. }, HolderReply::Done(Err(text))) => end(
            "inject CastKMS CEC response",
            text,
        ),
        (HolderPhase::InjectingCec { .. }, HolderReply::Done(Ok(()))) => HolderProgress::Done,
        (HolderPhase::Doing { steps }, HolderReply::Done(result)) => {
            if steps.len() == 0 {
                HolderProgress::Done
            } else {
                first_step_done(actor, steps, result, bound)
            }
        },
        (HolderPhase::Doing { steps }, HolderReply::Stopped(cleanup)) => {
            if steps.len() == 0 {
                HolderProgress::Done
            } else {
                generation_stopped(steps, cleanup)
            }
        },
        (HolderPhase::Following { step, .. }, HolderReply::Done(Err(text))) => end(
            authority_operation(step),
            text,
        ),
        (HolderPhase::Following { rest, .. }, HolderReply::Done(Ok(()))) => settle(
            actor,
            rest,
            bound,
        ),
        (HolderPhase::TellingFailure { end, rest, .. }, HolderReply::Done(_)) => match end {
            Err(error) => HolderProgress::End(error),
            Ok(()) => settle(actor, rest, bound),
        },
        (phase, _) => HolderProgress::Next(phase),
    }
}

/// The transport loses the right to drive the connector.
pub open spec fn suspends(progress: HolderProgressView) -> bool {
    progress matches HolderProgressView::Next(phase) && match phase {
        HolderPhaseView::FollowingEvent { step, .. } => step
            == AuthorityStep::DropPendingAndSuspend,
        HolderPhaseView::Following { step, .. } => step == AuthorityStep::DropPendingAndSuspend,
        _ => false,
    }
}

/// Steps that are left change nothing of the owner, but that a message is dropped
/// with the right to drive the connector.
pub proof fn settled_keeps_the_rest(actor: ActorView, steps: Seq<ActorStepView>, bound: bool)
    ensures
        settled(actor, steps, bound).0 == actor || settled(actor, steps, bound).0 == (ActorView {
            pending: None,
            ..actor
        }) && suspends(settled(actor, steps, bound).1),
    decreases steps.len(),
{
    if steps.len() > 0 {
        if steps[0] is SynchronizeCec {
            settled_keeps_the_rest(actor, steps.skip(1), bound);
        }
    }
}

/// No event of the holder touches the generation by itself.
pub proof fn holder_events_keep_the_generation(
    actor: ActorView,
    event: HolderEvent,
    online: bool,
    bound: bool,
)
    ensures
        event_begins(actor, event, online, bound).0.active == actor.active,
{
    settled_keeps_the_rest(actor, revoked_steps(actor), bound);
}

/// No reply touches the generation by itself.
pub proof fn holder_replies_keep_the_generation(
    actor: ActorView,
    phase: HolderPhaseView,
    reply: HolderReply,
    bound: bool,
)
    ensures
        event_goes_on(actor, phase, reply, bound).0.active == actor.active,
{
    settled_facts(actor, phase, reply, bound);
}

/// A pending message stays, or is dropped with the right to drive the connector.
pub proof fn replies_keep_pending_messages(
    actor: ActorView,
    phase: HolderPhaseView,
    reply: HolderReply,
    bound: bool,
)
    requires
        actor.pending is Some,
    ensures
        ({
            let (after, progress) = event_goes_on(actor, phase, reply, bound);
            after.pending == actor.pending || after.pending is None && suspends(progress)
        }),
{
    settled_facts(actor, phase, reply, bound);
}

proof fn settled_facts(
    actor: ActorView,
    phase: HolderPhaseView,
    reply: HolderReply,
    bound: bool,
)
    ensures
        match (phase, reply) {
            (HolderPhaseView::RecordingCec { .. }, HolderReply::Recorded(_)) => true,
            _ => {
                let (after, progress) = event_goes_on(actor, phase, reply, bound);
                &&& after.active == actor.active
                &&& after.bridge == actor.bridge
                &&& after.pending == actor.pending || after.pending is None && suspends(progress)
            },
        },
{
    match (phase, reply) {
        (HolderPhaseView::Polling, HolderReply::Observed(Ok(observation))) => {
            settled_keeps_the_rest(
                ActorView { current: observation, ..actor },
                poll_steps(actor, observation),
                bound,
            );
        },
        (HolderPhaseView::ObservingEvent { state }, HolderReply::Observed(Ok(observation))) => {
            settled_keeps_the_rest(
                ActorView { current: observation, ..actor },
                grant_steps(actor, state, observation),
                bound,
            );
        },
        (HolderPhaseView::Doing { steps }, HolderReply::Done(_)) => {
            settled_keeps_the_rest(actor, steps.skip(1), bound);
        },
        (HolderPhaseView::Following { rest, .. }, HolderReply::Done(Ok(_))) => {
            settled_keeps_the_rest(actor, rest, bound);
        },
        (HolderPhaseView::TellingFailure { rest, .. }, HolderReply::Done(_)) => {
            settled_keeps_the_rest(actor, rest, bound);
        },
        _ => {},
    }
}

/// An event that tells of the grant is taken in by the client first. Then the
/// remote-control transport follows, where one is bound, and only after that is
/// the display looked at, what is new published, and a generation without a grant
/// failed.
pub proof fn grant_events_keep_their_order(
    actor: ActorView,
    state: DisplayGrantState,
    online: bool,
    bound: bool,
    observation: KernelDisplayObservation,
)
    ensures
        ({
            let done = HolderReply::Done(Ok(()));
            let active = state == DisplayGrantState::Active;
            let (first, reconciling) = event_begins(
                actor,
                HolderEvent::GrantState(state),
                online,
                bound,
            );
            let (second, following) = event_goes_on(first, reconciling->Next_0, done, bound);
            let (third, observing) = if bound {
                event_goes_on(second, following->Next_0, done, bound)
            } else {
                (second, following)
            };
            let (last, end) = event_goes_on(
                third,
                observing->Next_0,
                HolderReply::Observed(Ok(observation)),
                bound,
            );
            &&& reconciling == HolderProgressView::Next(
                HolderPhaseView::ReconcilingEvent { state },
            )
            &&& bound ==> following == HolderProgressView::Next(
                HolderPhaseView::FollowingEvent { state, step: authority_due(bound, active) },
            )
            &&& observing == HolderProgressView::Next(HolderPhaseView::ObservingEvent { state })
            &&& last == (ActorView {
                current: observation,
                pending: if bound && !active {
                    None
                } else {
                    actor.pending
                },
                ..actor
            })
            &&& end == (if grant_steps(actor, state, observation).len() == 0 {
                HolderProgressView::Done
            } else {
                HolderProgressView::Next(
                    HolderPhaseView::Doing { steps: grant_steps(actor, state, observation) },
                )
            })
        }),
{
    let steps = grant_steps(actor, state, observation);
    let dropped = follows(actor, authority_due(bound, state == DisplayGrantState::Active));
    assert(grant_steps(dropped, state, observation) =~= steps);
    if steps.len() > 0 {
        assert(!(steps[0] is SynchronizeCec));
    }
}

/// A message at a transport that is not online leads to a question for the grant,
/// and to the reconciliation with it, before anything is asked about who
/// translates the message.
pub proof fn offline_messages_recheck_the_grant_first(
    actor: ActorView,
    event: CecTransmitEvent,
    bound: bool,
    state: DisplayGrantState,
)
    ensures
        ({
            let done = HolderReply::Done(Ok(()));
            let (first, rechecking) = event_begins(
                actor,
                HolderEvent::CecTransmit(event),
                false,
                bound,
            );
            let (second, reconciling) = event_goes_on(
                first,
                rechecking->Next_0,
                HolderReply::Grant(Ok(state)),
                bound,
            );
            let (third, following) = event_goes_on(second, reconciling->Next_0, done, bound);
            let (last, end) = if bound && state == DisplayGrantState::Active {
                event_goes_on(third, following->Next_0, done, bound)
            } else {
                (third, following)
            };
            &&& rechecking == HolderProgressView::Next(HolderPhaseView::RecheckingCec { event })
            &&& reconciling == HolderProgressView::Next(
                HolderPhaseView::ReconcilingCec {
                    event,
                    active: state == DisplayGrantState::Active,
                },
            )
            &&& bound && state == DisplayGrantState::Active ==> following
                == HolderProgressView::Next(HolderPhaseView::FollowingCec { event })
            &&& last == actor
            &&& end == admitted(actor, event)
        }),
{
}

/// A message is answered as the bridge translates it, about that message alone: it is
/// acknowledged, refused with the attempts that it names, acknowledged and replied to,
/// or handed to the device.
pub proof fn messages_are_answered_as_translated(event: CecTransmitEvent, action: ActionView)
    ensures
        ({
            let progress = translated(event, action);
            &&& action is Control <==> progress is Control
            &&& action is Control ==> progress->Control_0 == action->Control_0
            &&& !(action is Control) ==> {
                let phase = progress->Next_0;
                &&& progress is Next && phase is CompletingCec
                &&& phase->CompletingCec_event == event
                &&& action is NotAcknowledged <==> phase->completion
                    == (CecCompletion::NotAcknowledged { attempts: event.attempts })
                &&& action is Acknowledge || action is Reply <==> phase->completion is Succeeded
                &&& action is Reply <==> phase->reply is Some
                &&& action is Reply ==> phase->reply->0 == action->Reply_0
            }
        }),
{
}

/// The answer of the device completes the message that it works on, once: it succeeds,
/// is refused with its attempts, or fails, as the device said. Without such a message the
/// answer is dropped.
pub proof fn device_answers_complete_their_message(
    actor: ActorView,
    outcome: ControlOutcome,
    online: bool,
    bound: bool,
)
    ensures
        ({
            let (after, progress) = event_begins(
                actor,
                HolderEvent::CecControlled(outcome),
                online,
                bound,
            );
            &&& actor.pending is None ==> after == actor && progress is Done
            &&& actor.pending is Some ==> {
                let phase = progress->Next_0;
                &&& after.pending is None
                &&& after.active == actor.active && after.current == actor.current && after.bridge
                    == actor.bridge
                &&& progress is Next && phase is CompletingCec
                &&& phase->CompletingCec_event == actor.pending->0
                &&& phase->reply is None
                &&& outcome is Done <==> phase->completion is Succeeded
                &&& outcome is Refused <==> phase->completion == (CecCompletion::NotAcknowledged {
                    attempts: actor.pending->0.attempts,
                })
                &&& outcome is TaskFailed <==> phase->completion is Failed
            }
        }),
{
}

/// One message at a time: a second one, or one without a bridge, ends the owner; any other
/// is recorded at the kernel first.
pub proof fn messages_come_one_at_a_time(actor: ActorView, event: CecTransmitEvent, bound: bool)
    ensures
        ({
            let (after, progress) = event_begins(
                actor,
                HolderEvent::CecTransmit(event),
                true,
                bound,
            );
            &&& after == actor
            &&& progress is End <==> actor.bridge is None || actor.pending is Some
            &&& !(progress is End) ==> progress == HolderProgressView::Next(
                HolderPhaseView::RecordingCec { event },
            )
        }),
{
}

/// A recorded message goes to the bridge: what it does with the pressed key and how it
/// answers is the bridge's; one that the device works on is the pending one. A stale one is
/// dropped.
pub proof fn recorded_messages_go_to_the_bridge(
    actor: ActorView,
    event: CecTransmitEvent,
    admission: Result<CecTransmitAdmission, String>,
)
    requires
        actor.bridge is Some,
        actor.pending is None,
    ensures
        ({
            let (after, progress) = recorded(actor, event, admission);
            let action = action_for(actor.bridge->0, event.message@);
            &&& after.active == actor.active && after.current == actor.current
            &&& admission is Err <==> progress is End
            &&& admission is Ok && admission->Ok_0 is Stale <==> progress is Done
            &&& !(admission is Ok && admission->Ok_0 is Accepted) ==> after == actor
            &&& admission is Ok && admission->Ok_0 is Accepted ==> {
                &&& after.bridge == Some(pressed_after(actor.bridge->0, event.message@))
                &&& after.pending == (if action is Control {
                    Some(event)
                } else {
                    None
                })
                &&& progress == translated(event, action)
            }
        }),
{
}

/// A generation that failed is told with its reason; a cleanup that failed too ends the
/// owner, and both are told. What was to come after is kept.
pub proof fn failed_generations_are_told(
    steps: Seq<ActorStepView>,
    cleanup: Result<(), KernelDisplayError>,
)
    requires
        steps.len() > 0,
        steps[0] is FailActive,
    ensures
        ({
            let progress = failing(steps, cleanup);
            let phase = progress->Next_0;
            &&& progress is Next && phase is TellingFailure
            &&& steps[0]->FailActive_0.is_prefix_of(phase->diagnostic)
            &&& cleanup is Ok <==> phase->diagnostic == steps[0]->FailActive_0
            &&& cleanup is Ok <==> phase->end is None
            &&& phase->TellingFailure_rest.len() == steps.len() - 1
            &&& forall|i: int|
                0 <= i < steps.len() - 1 ==> #[trigger] phase->TellingFailure_rest[i]
                    == steps[i + 1]
        }),
{
    reveal_strlit("; cleanup also failed: ");
    if cleanup is Err {
        let text = failing(steps, cleanup)->Next_0->diagnostic;
        assert(text.len() > steps[0]->FailActive_0.len());
    }
}

/// The right to drive the connector is followed as far as the transport is bound; without
/// it, what a device works on is given up.
pub proof fn transports_follow_the_grant(actor: ActorView, bound: bool, active: bool)
    ensures
        authority_due(bound, active) is Nothing <==> !bound,
        authority_due(bound, active) is BringOnline <==> bound && active,
        authority_due(bound, active) is DropPendingAndSuspend <==> bound && !active,
        follows(actor, authority_due(bound, active)).pending is None <==> actor.pending is None || (
        bound && !active),
        follows(actor, authority_due(bound, active)).active == actor.active,
        follows(actor, authority_due(bound, active)).current == actor.current,
        follows(actor, authority_due(bound, active)).bridge == actor.bridge,
{
}

} // verus!
