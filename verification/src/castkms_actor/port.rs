//! Requests to the owner of a connector, and what comes back.

use crate::kernel_display_port::{kernel_error, KernelDisplayError, KernelDisplayEvent};
use crate::media_pipeline_port::{MediaPipelineError, PreparedCaptureMedia};
use crate::text::concat;
use vstd::prelude::*;
use vstd::string::*;

verus! {

/// What came of handing a command to the owner.
#[derive(Debug, Clone, Copy, PartialEq, Eq, Structural)]
pub enum SendOutcome {
    Sent,
    Closed,
    Cancelled,
}

/// What came of waiting for the answer.
#[derive(Debug, PartialEq, Eq)]
pub enum ReplyOutcome<T> {
    Reply(Result<T, KernelDisplayError>),
    Closed,
    Cancelled,
}

/// A request about the active generation.
#[derive(Debug, Clone, Copy, PartialEq, Eq, Structural)]
pub enum CaptureRequest {
    Activate,
    Suspend,
    Stop,
}

impl CaptureRequest {
    pub open spec fn name(self) -> Seq<char> {
        match self {
            CaptureRequest::Activate => "activate CastKMS capture"@,
            CaptureRequest::Suspend => "suspend CastKMS capture"@,
            CaptureRequest::Stop => "stop CastKMS capture"@,
        }
    }

    pub fn operation(self) -> (operation: &'static str)
        ensures
            operation@ == self.name(),
    {
        match self {
            CaptureRequest::Activate => "activate CastKMS capture",
            CaptureRequest::Suspend => "suspend CastKMS capture",
            CaptureRequest::Stop => "stop CastKMS capture",
        }
    }
}

/// Go on once a command was handed over.
pub fn send_command(outcome: SendOutcome) -> (result: Result<(), MediaPipelineError>)
    ensures
        match outcome {
            SendOutcome::Sent => result is Ok,
            SendOutcome::Closed => result is Err && result->Err_0.0@
                == "CastKMS actor command channel closed"@,
            SendOutcome::Cancelled => result is Err && result->Err_0.0@
                == "CastKMS command was cancelled"@,
        },
{
    match outcome {
        SendOutcome::Sent => Ok(()),
        SendOutcome::Closed => Err(MediaPipelineError::new("CastKMS actor command channel closed")),
        SendOutcome::Cancelled => Err(MediaPipelineError::new("CastKMS command was cancelled")),
    }
}

/// The result of a wait for an answer is the one that the outcome is due.
pub open spec fn answered<T>(
    outcome: ReplyOutcome<T>,
    cancelled: Seq<char>,
    result: Result<T, MediaPipelineError>,
) -> bool {
    match outcome {
        ReplyOutcome::Cancelled => result is Err && result->Err_0.0@ == cancelled,
        ReplyOutcome::Closed => result is Err && result->Err_0.0@ == "CastKMS actor reply closed"@,
        ReplyOutcome::Reply(Err(error)) => result is Err && result->Err_0.0@ == error@.text(),
        ReplyOutcome::Reply(Ok(value)) => result == Ok::<T, MediaPipelineError>(value),
    }
}

/// The result of a request, once the owner has answered or will not.
pub fn request_unit(request: CaptureRequest, outcome: ReplyOutcome<()>) -> (result: Result<
    (),
    MediaPipelineError,
>)
    ensures
        answered(outcome, request.name() + " was cancelled"@, result),
{
    match outcome {
        ReplyOutcome::Cancelled => Err(
            MediaPipelineError(concat(request.operation(), " was cancelled")),
        ),
        ReplyOutcome::Closed => Err(MediaPipelineError::new("CastKMS actor reply closed")),
        ReplyOutcome::Reply(Err(error)) => Err(MediaPipelineError(error.to_text())),
        ReplyOutcome::Reply(Ok(done)) => Ok(done),
    }
}

/// The result of a start, once the owner has answered or will not.
pub fn start(outcome: ReplyOutcome<PreparedCaptureMedia>) -> (result: Result<
    PreparedCaptureMedia,
    MediaPipelineError,
>)
    ensures
        answered(outcome, "CastKMS capture start was cancelled"@, result),
{
    match outcome {
        ReplyOutcome::Cancelled => Err(
            MediaPipelineError::new("CastKMS capture start was cancelled"),
        ),
        ReplyOutcome::Closed => Err(MediaPipelineError::new("CastKMS actor reply closed")),
        ReplyOutcome::Reply(Err(error)) => Err(MediaPipelineError(error.to_text())),
        ReplyOutcome::Reply(Ok(prepared)) => Ok(prepared),
    }
}

/// The result of a shutdown. The display still owns the connector: it ends
/// when the display detaches, after the device.
pub fn shutdown(cancelled: bool) -> (result: Result<(), MediaPipelineError>)
    ensures
        result is Err <==> cancelled,
        result matches Err(error) ==> error.0@ == "CastKMS capture shutdown was cancelled"@,
{
    if cancelled {
        Err(MediaPipelineError::new("CastKMS capture shutdown was cancelled"))
    } else {
        Ok(())
    }
}

/// The next event of the owner; an owner that has ended tells no more.
pub fn next_event(event: Option<KernelDisplayEvent>) -> (result: Result<
    KernelDisplayEvent,
    KernelDisplayError,
>)
    ensures
        match event {
            Some(event) => result == Ok::<_, KernelDisplayError>(event),
            None => result is Err && result->Err_0@ == kernel_error(
                "observe CastKMS actor"@,
                "event stream closed"@,
            ),
        },
{
    match event {
        Some(event) => Ok(event),
        None => Err(KernelDisplayError::new("observe CastKMS actor", "event stream closed")),
    }
}

/// What is told of a detachment: the answer of the actor, and how its task ended.
pub open spec fn tells_detach(
    sent: bool,
    reply: Option<Result<(), KernelDisplayError>>,
    joined: Result<(), KernelDisplayError>,
    result: Result<(), KernelDisplayError>,
) -> bool {
    if !sent {
        result == joined
    } else {
        match reply {
            None => result is Err && result->Err_0@ == kernel_error(
                "detach grant-scoped monitor"@,
                "actor reply closed"@,
            ),
            Some(Err(error)) => result == Err::<(), KernelDisplayError>(error),
            Some(Ok(_)) => result == joined,
        }
    }
}

/// The result of an orderly detach: an owner that takes no command any more is
/// only waited for, and otherwise its answer comes before how it ended.
pub fn detach(
    sent: bool,
    reply: Option<Result<(), KernelDisplayError>>,
    joined: Result<(), KernelDisplayError>,
) -> (result: Result<(), KernelDisplayError>)
    ensures
        tells_detach(sent, reply, joined, result),
{
    if !sent {
        return joined;
    }
    match reply {
        None => Err(KernelDisplayError::new("detach grant-scoped monitor", "actor reply closed")),
        Some(Err(error)) => Err(error),
        Some(Ok(())) => joined,
    }
}

/// How the owner ended, if it was still to be waited for.
pub fn join_task(outcome: Option<Result<Result<(), KernelDisplayError>, String>>) -> (result: Result<
    (),
    KernelDisplayError,
>)
    ensures
        match outcome {
            None => result is Ok,
            Some(Ok(ended)) => result == ended,
            Some(Err(text)) => result is Err && result->Err_0@ == kernel_error(
                "join CastKMS actor"@,
                text@,
            ),
        },
{
    match outcome {
        None => Ok(()),
        Some(Ok(ended)) => ended,
        Some(Err(text)) => Err(
            KernelDisplayError { operation: "join CastKMS actor", message: text },
        ),
    }
}

/// An answer is passed on as it is, and a failure by its text; without an answer it is
/// told why there is none.
pub proof fn answers_are_passed_on<T>(
    outcome: ReplyOutcome<T>,
    cancelled: Seq<char>,
    result: Result<T, MediaPipelineError>,
)
    requires
        answered(outcome, cancelled, result),
    ensures
        result is Ok <==> outcome is Reply && outcome->Reply_0 is Ok,
        result is Ok ==> result->Ok_0 == outcome->Reply_0->Ok_0,
        outcome is Reply && outcome->Reply_0 is Err ==> result->Err_0.0@
            == outcome->Reply_0->Err_0@.text(),
        outcome is Cancelled ==> result->Err_0.0@ == cancelled,
{
}

/// A detachment succeeds only if the actor said so, or was gone, and its task ended
/// well.
pub proof fn detachments_need_the_actor_and_its_task(
    sent: bool,
    reply: Option<Result<(), KernelDisplayError>>,
    joined: Result<(), KernelDisplayError>,
    result: Result<(), KernelDisplayError>,
)
    requires
        tells_detach(sent, reply, joined, result),
    ensures
        result is Ok <==> joined is Ok && (!sent || (reply is Some && reply->0 is Ok)),
        sent && reply is Some && reply->0 is Err ==> result->Err_0 == reply->0->Err_0,
        (!sent || (reply is Some && reply->0 is Ok)) && joined is Err ==> result->Err_0
            == joined->Err_0,
{
}

/// The name of a request says what it asks for.
pub proof fn requests_are_named_by_their_work(value: CaptureRequest)
    ensures
        value is Activate ==> "activate CastKMS capture"@.is_prefix_of(value.name()),
        value is Suspend ==> "suspend CastKMS capture"@.is_prefix_of(value.name()),
        value is Stop ==> "stop CastKMS capture"@.is_prefix_of(value.name()),
{
    let text = value.name();
    if value is Activate {
        assert("activate CastKMS capture"@ =~= text.subrange(
            0,
            "activate CastKMS capture"@.len() as int,
        ));
    }
    if value is Suspend {
        assert("suspend CastKMS capture"@ =~= text.subrange(
            0,
            "suspend CastKMS capture"@.len() as int,
        ));
    }
    if value is Stop {
        assert("stop CastKMS capture"@ =~= text.subrange(0, "stop CastKMS capture"@.len() as int));
    }
}

/// Without an answer it is told that the owner is gone.
pub proof fn missing_answers_are_told<T>(
    cancelled: Seq<char>,
    result: Result<T, MediaPipelineError>,
)
    requires
        answered(ReplyOutcome::<T>::Closed, cancelled, result),
    ensures
        result is Err,
        result->Err_0.0@ == "CastKMS actor reply closed"@,
{
}

} // verus!
