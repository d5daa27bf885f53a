//! Remote control messages of a connector.

use crate::castkms_actor::stop::{labelled, note_reply};
use crate::cec_bridge::{action_for, pressed_after, ActionView, CecBridge, CecBridgeAction};
use crate::device_control_port::{DeviceControlError, DeviceControlOperation};
use crate::kernel_display_port::{kernel_error, KernelDisplayError};
use crate::text::texts_view;
use vstd::prelude::*;

verus! {

/// What to do when the right to drive the connector comes or goes.
#[derive(Debug, Clone, Copy, PartialEq, Eq, Structural)]
pub enum AuthorityStep {
    Nothing,
    BringOnline,
    /// The kernel has aborted the transaction and gone offline by itself: drop
    /// the pending device operation and record the suspension.
    DropPendingAndSuspend,
}

/// What a change of authority asks of a transport.
pub open spec fn authority_step(bound: bool, authority_active: bool) -> AuthorityStep {
    if !bound {
        AuthorityStep::Nothing
    } else if authority_active {
        AuthorityStep::BringOnline
    } else {
        AuthorityStep::DropPendingAndSuspend
    }
}

pub fn synchronize_cec_authority(bound: bool, authority_active: bool) -> (step: AuthorityStep)
    ensures
        step == authority_step(bound, authority_active),
{
    if !bound {
        AuthorityStep::Nothing
    } else if authority_active {
        AuthorityStep::BringOnline
    } else {
        AuthorityStep::DropPendingAndSuspend
    }
}

/// What an authority step is called when it fails.
pub fn authority_operation(step: AuthorityStep) -> (operation: &'static str)
    ensures
        operation@ == (if step == AuthorityStep::DropPendingAndSuspend {
            "suspend connector CEC transport authority"@
        } else {
            "resume connector CEC transport authority"@
        }),
{
    match step {
        AuthorityStep::DropPendingAndSuspend => "suspend connector CEC transport authority",
        _ => "resume connector CEC transport authority",
    }
}

/// How a message is answered to the kernel.
#[derive(Debug, Clone, Copy, PartialEq, Eq, Structural)]
pub enum CecCompletion {
    Succeeded,
    NotAcknowledged { attempts: u8 },
    Failed,
}

/// Whether the kernel still waits for a message.
#[derive(Debug, Clone, Copy, PartialEq, Eq, Structural)]
pub enum CecTransmitAdmission {
    Accepted,
    Stale,
}

/// A message that the kernel wants to have sent.
#[derive(Debug, PartialEq, Eq)]
pub struct CecTransmitEvent {
    pub transport_generation: u64,
    pub state_generation: u64,
    pub cookie: u64,
    pub attempts: u8,
    pub message: Vec<u8>,
}

/// What to do about a message.
#[derive(Debug, PartialEq, Eq)]
pub enum CecStep {
    Ignore,
    Complete { completion: CecCompletion, operation: &'static str },
    /// Acknowledge, then send the reply. Each has its own name for a failure.
    CompleteAndReply { message: Vec<u8>, operation: &'static str, reply_operation: &'static str },
    /// Ask the device, and complete with what it says.
    Control(DeviceControlOperation),
}

/// The step is the one that an action asks for.
pub open spec fn carries_out(step: CecStep, action: ActionView, attempts: u8) -> bool {
    match action {
        ActionView::Acknowledge => step matches CecStep::Complete { completion, operation }
            && completion == CecCompletion::Succeeded && operation@
            == "acknowledge CastKMS CEC transmit"@,
        ActionView::NotAcknowledged => step matches CecStep::Complete { completion, operation }
            && completion == (CecCompletion::NotAcknowledged { attempts }) && operation@
            == "reject CastKMS CEC transmit"@,
        ActionView::Reply(reply) => {
            &&& step matches CecStep::CompleteAndReply { message, operation, reply_operation }
            &&& message@ == reply
            &&& operation@ == "acknowledge CastKMS CEC request"@
            &&& reply_operation@ == "inject CastKMS CEC response"@
        },
        ActionView::Control(control) => step matches CecStep::Control(operation) && operation@
            == control,
    }
}

/// Refuse a message while the device still works on another.
pub fn admit_cec_transmit(pending: bool) -> (result: Result<(), KernelDisplayError>)
    ensures
        result is Err <==> pending,
        result matches Err(error) ==> error@ == kernel_error(
            "handle CastKMS CEC transmit"@,
            "a Device control operation is already pending"@,
        ),
{
    if pending {
        Err(
            KernelDisplayError::new(
                "handle CastKMS CEC transmit",
                "a Device control operation is already pending",
            ),
        )
    } else {
        Ok(())
    }
}

/// How a message that is to be sent was answered.
pub open spec fn answers_transmit(
    before: Option<Seq<char>>,
    admission: Result<CecTransmitAdmission, String>,
    message: Seq<u8>,
    attempts: u8,
    after: Option<Seq<char>>,
    result: Result<CecStep, KernelDisplayError>,
) -> bool {
    match admission {
        Err(text) => {
            &&& result is Err
            &&& result->Err_0@ == kernel_error("record CastKMS CEC transmit"@, text@)
            &&& after == before
        },
        Ok(CecTransmitAdmission::Stale) => {
            &&& result == Ok::<CecStep, KernelDisplayError>(CecStep::Ignore)
            &&& after == before
        },
        Ok(CecTransmitAdmission::Accepted) => {
            &&& result is Ok
            &&& carries_out(result->Ok_0, action_for(before, message), attempts)
            &&& after == pressed_after(before, message)
        },
    }
}

/// Decide about a message that the kernel has recorded.
pub fn handle_cec_transmit(
    bridge: &mut CecBridge,
    admission: Result<CecTransmitAdmission, String>,
    message: &[u8],
    attempts: u8,
) -> (result: Result<CecStep, KernelDisplayError>)
    ensures
        answers_transmit(old(bridge)@, admission, message@, attempts, final(bridge)@, result),
{
    match admission {
        Err(text) => Err(
            KernelDisplayError { operation: "record CastKMS CEC transmit", message: text },
        ),
        Ok(CecTransmitAdmission::Stale) => Ok(CecStep::Ignore),
        Ok(CecTransmitAdmission::Accepted) => Ok(
            match bridge.translate(message) {
                CecBridgeAction::Acknowledge => CecStep::Complete {
                    completion: CecCompletion::Succeeded,
                    operation: "acknowledge CastKMS CEC transmit",
                },
                CecBridgeAction::NotAcknowledged => CecStep::Complete {
                    completion: CecCompletion::NotAcknowledged { attempts },
                    operation: "reject CastKMS CEC transmit",
                },
                CecBridgeAction::Reply(message) => CecStep::CompleteAndReply {
                    message,
                    operation: "acknowledge CastKMS CEC request",
                    reply_operation: "inject CastKMS CEC response",
                },
                CecBridgeAction::Control(operation) => CecStep::Control(operation),
            },
        ),
    }
}

/// What came of an operation at the device.
#[derive(Debug, Clone, Copy, PartialEq, Eq, Structural)]
pub enum ControlOutcome {
    Done,
    Refused,
    TaskFailed,
}

/// The answer of a device to an operation, if it came in time.
pub fn control_answer(answer: Option<Result<(), DeviceControlError>>) -> (result: Result<
    (),
    DeviceControlError,
>)
    ensures
        match answer {
            Some(answer) => result == answer,
            None => result is Err && result->Err_0.0@ == "Device control operation timed out"@,
        },
{
    match answer {
        Some(answer) => answer,
        None => Err(DeviceControlError::timed_out()),
    }
}

/// What came of asking the device.
pub open spec fn outcome_of(
    task: Result<Result<(), DeviceControlError>, String>,
) -> ControlOutcome {
    match task {
        Ok(Ok(_)) => ControlOutcome::Done,
        Ok(Err(_)) => ControlOutcome::Refused,
        Err(_) => ControlOutcome::TaskFailed,
    }
}

/// What came of an operation, given how its task ended.
pub fn control_outcome(task: Result<Result<(), DeviceControlError>, String>) -> (outcome:
    ControlOutcome)
    ensures
        outcome == outcome_of(task),
{
    match task {
        Ok(Ok(())) => ControlOutcome::Done,
        Ok(Err(_)) => ControlOutcome::Refused,
        Err(_) => ControlOutcome::TaskFailed,
    }
}

/// How a message completes that the device was asked about.
pub open spec fn completion_of(outcome: ControlOutcome, attempts: u8) -> CecCompletion {
    match outcome {
        ControlOutcome::Done => CecCompletion::Succeeded,
        ControlOutcome::Refused => CecCompletion::NotAcknowledged { attempts },
        ControlOutcome::TaskFailed => CecCompletion::Failed,
    }
}

/// How a message is answered once the device has said what came of it.
pub fn control_completion(outcome: ControlOutcome, attempts: u8) -> (completion: CecCompletion)
    ensures
        completion == completion_of(outcome, attempts),
{
    match outcome {
        ControlOutcome::Done => CecCompletion::Succeeded,
        ControlOutcome::Refused => CecCompletion::NotAcknowledged { attempts },
        ControlOutcome::TaskFailed => CecCompletion::Failed,
    }
}

/// Note what came of taking the transport down: the pending message, if there
/// was one, and the transport itself, if it was bound.
pub fn teardown_cec(
    pending: Option<Result<(), String>>,
    transport: Option<(Result<(), String>, Result<(), String>)>,
    failures: &mut Vec<String>,
)
    ensures
        texts_view(final(failures)@) == texts_view(old(failures)@) + (match pending {
            Some(reply) => labelled("fail pending CEC transmit: "@, reply),
            None => Seq::empty(),
        }) + (match transport {
            Some((offline, unbind)) => labelled("take CEC transport offline: "@, offline)
                + labelled("unbind CEC transport: "@, unbind),
            None => Seq::empty(),
        }),
{
    let ghost before = texts_view(failures@);
    if let Some(reply) = pending {
        note_reply("fail pending CEC transmit: ", reply, failures);
    }
    let ghost between = texts_view(failures@);
    if let Some((offline, unbind)) = transport {
        note_reply("take CEC transport offline: ", offline, failures);
        note_reply("unbind CEC transport: ", unbind, failures);
        proof {
            assert(texts_view(failures@) =~= between + (labelled(
                "take CEC transport offline: "@,
                offline,
            ) + labelled("unbind CEC transport: "@, unbind)));
        }
    }
    proof {
        assert(before + Seq::<Seq<char>>::empty() =~= before);
        assert(between + Seq::<Seq<char>>::empty() =~= between);
    }
}

/// A message that the kernel has dropped is ignored; one that could not be recorded
/// is a failure; neither moves the pressed key. Every other is answered as the bridge
/// says, with the attempts that it names.
pub proof fn transmits_are_answered_as_the_bridge_says(
    before: Option<Seq<char>>,
    admission: Result<CecTransmitAdmission, String>,
    message: Seq<u8>,
    attempts: u8,
    after: Option<Seq<char>>,
    result: Result<CecStep, KernelDisplayError>,
)
    requires
        answers_transmit(before, admission, message, attempts, after, result),
    ensures
        admission is Err <==> result is Err,
        admission is Err ==> result->Err_0@.message == admission->Err_0@ && after == before,
        result is Ok && result->Ok_0 is Ignore <==> admission is Ok && admission->Ok_0 is Stale,
        admission is Ok && admission->Ok_0 is Stale ==> after == before,
        admission is Ok && admission->Ok_0 is Accepted ==> {
            let action = action_for(before, message);
            let step = result->Ok_0;
            &&& after == pressed_after(before, message)
            &&& action is Acknowledge ==> step is Complete && step->completion is Succeeded
            &&& action is NotAcknowledged ==> step is Complete && step->completion
                == (CecCompletion::NotAcknowledged { attempts })
            &&& action is Reply ==> step is CompleteAndReply && step->message@ == action->Reply_0
            &&& action is Control ==> step is Control && step->Control_0@ == action->Control_0
        },
{
}

/// A transport follows the authority over its connector: it comes online with it, and
/// drops what it was about without it. One that is not bound is left alone.
pub proof fn transports_follow_the_authority(bound: bool, authority_active: bool)
    ensures
        authority_step(bound, authority_active) is Nothing <==> !bound,
        authority_step(bound, authority_active) is BringOnline <==> bound && authority_active,
        authority_step(bound, authority_active) is DropPendingAndSuspend <==> bound
            && !authority_active,
{
}

/// A message succeeds if the device did what it asks, is not acknowledged if the device
/// refused, and fails if the device could not be asked.
pub proof fn completions_tell_what_the_device_did(
    task: Result<Result<(), DeviceControlError>, String>,
    attempts: u8,
)
    ensures
        completion_of(outcome_of(task), attempts) is Succeeded <==> task is Ok && task->Ok_0 is Ok,
        completion_of(outcome_of(task), attempts) == (CecCompletion::NotAcknowledged { attempts })
            <==> task is Ok && task->Ok_0 is Err,
        completion_of(outcome_of(task), attempts) is Failed <==> task is Err,
{
}

} // verus!
