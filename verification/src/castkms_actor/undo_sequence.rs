//! The way back from a start that failed.

use crate::castkms_actor::start::{
    rollback_stops_capture, rollback_unpublished, stop_started_source, StartFailure, Undo,
};
use crate::castkms_actor::stop::SourceStop;
use crate::castkms_actor::CaptureStreamInfo;
use crate::kernel_display_port::{kernel_error, KernelDisplayError, KernelErrorView};
use crate::nonzero::NonZeroU64;
use vstd::prelude::*;

verus! {

/// What the way back waits for.
#[derive(Debug, Clone, Copy, PartialEq, Eq, Structural)]
pub enum UndoPhase {
    /// The source that was started stops.
    StoppingSource { media_generation: NonZeroU64, stream: CaptureStreamInfo },
    /// Which stream the kernel captures.
    FindingStream { stream: CaptureStreamInfo },
    /// The capture of the stream stops.
    StoppingCapture { stream: CaptureStreamInfo },
    /// Whether the stream still has buffers.
    ListingBuffers { stream: CaptureStreamInfo },
    /// The pool of the stream goes.
    DestroyingPool { stream: CaptureStreamInfo },
}

/// The way back from a failed start.
#[derive(Debug)]
pub struct StartUndo {
    /// Why the start failed.
    pub error: KernelDisplayError,
    pub phase: UndoPhase,
}

/// What came of a phase.
#[derive(Debug)]
pub enum UndoReply {
    Source(SourceStop),
    ActiveStream(Option<CaptureStreamInfo>),
    /// The stream has buffers.
    Buffers(bool),
    Done(Result<(), String>),
}

/// How the way back goes on.
#[derive(Debug)]
pub enum UndoProgress {
    Next(StartUndo),
    /// The requester is told the error.
    Failed(KernelDisplayError),
}

/// The way back goes on with the phase.
pub open spec fn undo_next(progress: UndoProgress, error: KernelDisplayError, phase: UndoPhase) -> bool {
    progress == UndoProgress::Next(StartUndo { error, phase })
}

/// The start ends with an error of its own.
pub open spec fn undo_fails(progress: UndoProgress, error: KernelErrorView) -> bool {
    progress matches UndoProgress::Failed(told) && told@ == error
}

/// The way back begins with what was made last.
pub open spec fn undo_begins(failure: StartFailure, progress: UndoProgress) -> bool {
    match failure.undo {
        Undo::Nothing => progress == UndoProgress::Failed(failure.error),
        Undo::Stream(stream) => undo_next(
            progress,
            failure.error,
            UndoPhase::FindingStream { stream },
        ),
        Undo::SourceAndStream { media_generation, stream } => undo_next(
            progress,
            failure.error,
            UndoPhase::StoppingSource { media_generation, stream },
        ),
    }
}

/// The way back goes on as it is due. A part that cannot be undone ends it, and
/// its error comes before that of the start. What is not waited for changes
/// nothing.
pub open spec fn undo_goes_on(undo: StartUndo, reply: UndoReply, progress: UndoProgress) -> bool {
    match (undo.phase, reply) {
        (UndoPhase::StoppingSource { stream, .. }, UndoReply::Source(outcome)) => match outcome {
            SourceStop::Failed(text) => undo_fails(
                progress,
                kernel_error("roll back PipeWire source"@, text@),
            ),
            _ => undo_next(progress, undo.error, UndoPhase::FindingStream { stream }),
        },
        (UndoPhase::FindingStream { stream }, UndoReply::ActiveStream(active)) => undo_next(
            progress,
            undo.error,
            if active == Some(stream) {
                UndoPhase::StoppingCapture { stream }
            } else {
                UndoPhase::ListingBuffers { stream }
            },
        ),
        (UndoPhase::StoppingCapture { stream }, UndoReply::Done(result)) => match result {
            Err(text) => undo_fails(progress, kernel_error("roll back CastKMS capture"@, text@)),
            Ok(_) => undo_next(progress, undo.error, UndoPhase::ListingBuffers { stream }),
        },
        (UndoPhase::ListingBuffers { stream }, UndoReply::Buffers(held)) => if held {
            undo_next(progress, undo.error, UndoPhase::DestroyingPool { stream })
        } else {
            progress == UndoProgress::Failed(undo.error)
        },
        (UndoPhase::DestroyingPool { .. }, UndoReply::Done(result)) => match result {
            Err(text) => undo_fails(
                progress,
                kernel_error("destroy rolled-back capture pool"@, text@),
            ),
            Ok(_) => progress == UndoProgress::Failed(undo.error),
        },
        _ => progress == UndoProgress::Next(undo),
    }
}

impl StartUndo {
    /// Begin the way back.
    pub fn begin(failure: StartFailure) -> (progress: UndoProgress)
        ensures
            undo_begins(failure, progress),
    {
        let error = failure.error;
        match failure.undo {
            Undo::Nothing => UndoProgress::Failed(error),
            Undo::Stream(stream) => UndoProgress::Next(
                StartUndo { error, phase: UndoPhase::FindingStream { stream } },
            ),
            Undo::SourceAndStream { media_generation, stream } => UndoProgress::Next(
                StartUndo {
                    error,
                    phase: UndoPhase::StoppingSource { media_generation, stream },
                },
            ),
        }
    }

    /// Go on after a reply.
    pub fn proceed(self, reply: UndoReply) -> (progress: UndoProgress)
        ensures
            undo_goes_on(self, reply, progress),
    {
        let error = self.error;
        let phase = match (self.phase, reply) {
            (UndoPhase::StoppingSource { stream, .. }, UndoReply::Source(outcome)) => {
                if let Err(failed) = stop_started_source(outcome) {
                    return UndoProgress::Failed(failed);
                }
                UndoPhase::FindingStream { stream }
            },
            (UndoPhase::FindingStream { stream }, UndoReply::ActiveStream(active)) => {
                if rollback_stops_capture(active, stream) {
                    UndoPhase::StoppingCapture { stream }
                } else {
                    UndoPhase::ListingBuffers { stream }
                }
            },
            (UndoPhase::StoppingCapture { stream }, UndoReply::Done(result)) => {
                if let Err(failed) = rollback_unpublished(Some(result), None) {
                    return UndoProgress::Failed(failed);
                }
                UndoPhase::ListingBuffers { stream }
            },
            (UndoPhase::ListingBuffers { stream }, UndoReply::Buffers(held)) => {
                if !held {
                    return UndoProgress::Failed(error);
                }
                UndoPhase::DestroyingPool { stream }
            },
            (UndoPhase::DestroyingPool { .. }, UndoReply::Done(result)) => {
                return match rollback_unpublished(None, Some(result)) {
                    Err(failed) => UndoProgress::Failed(failed),
                    Ok(()) => UndoProgress::Failed(error),
                };
            },
            (phase, _) => phase,
        };
        UndoProgress::Next(StartUndo { error, phase })
    }
}

/// How far the way back is.
pub open spec fn undo_position(phase: UndoPhase) -> nat {
    match phase {
        UndoPhase::StoppingSource { .. } => 0,
        UndoPhase::FindingStream { .. } => 1,
        UndoPhase::StoppingCapture { .. } => 2,
        UndoPhase::ListingBuffers { .. } => 3,
        UndoPhase::DestroyingPool { .. } => 4,
    }
}

/// The stream that the way back is about.
pub open spec fn undo_stream(phase: UndoPhase) -> CaptureStreamInfo {
    match phase {
        UndoPhase::StoppingSource { stream, .. } => stream,
        UndoPhase::FindingStream { stream } => stream,
        UndoPhase::StoppingCapture { stream } => stream,
        UndoPhase::ListingBuffers { stream } => stream,
        UndoPhase::DestroyingPool { stream } => stream,
    }
}

/// The source stops before the capture, and the capture before its pool goes; the
/// error of the start is kept until everything is undone, and is then told.
pub proof fn starts_are_undone_in_order(undo: StartUndo, reply: UndoReply, progress: UndoProgress)
    requires
        undo_goes_on(undo, reply, progress),
    ensures
        match progress {
            UndoProgress::Next(next) => {
                &&& next.error == undo.error
                &&& undo_stream(next.phase) == undo_stream(undo.phase)
                &&& undo_position(undo.phase) <= undo_position(next.phase)
                &&& next.phase is DestroyingPool ==> undo_position(undo.phase) >= 3
            },
            UndoProgress::Failed(error) => {
                &&& !(undo.phase is FindingStream)
                &&& undo.phase is ListingBuffers ==> error == undo.error
                &&& undo.phase is DestroyingPool && reply == UndoReply::Done(Ok(())) ==> error
                    == undo.error
            },
        },
{
}

/// Whatever a failed start made is undone: the source before its stream, the capture if
/// it is the one that runs, and the pool if there is one. What fails on the way is told;
/// else the error of the start is.
pub proof fn failed_starts_tell_their_error(
    failure: StartFailure,
    first: UndoProgress,
    undo: StartUndo,
    reply: UndoReply,
    progress: UndoProgress,
)
    requires
        undo_begins(failure, first),
        undo_goes_on(undo, reply, progress),
    ensures
        failure.undo is Nothing <==> first is Failed,
        first is Failed ==> first->Failed_0 == failure.error,
        first is Next ==> first->Next_0.error == failure.error,
        failure.undo matches Undo::Stream(stream) ==> first->Next_0.phase
            == (UndoPhase::FindingStream { stream }),
        failure.undo matches Undo::SourceAndStream { media_generation, stream }
            ==> first->Next_0.phase == (UndoPhase::StoppingSource { media_generation, stream }),
        undo.phase is StoppingSource && reply is Source ==> (progress is Failed
            <==> reply->Source_0 is Failed) && (progress is Next ==> progress->Next_0.phase
            is FindingStream),
        undo.phase is FindingStream && reply is ActiveStream ==> progress is Next && (
        progress->Next_0.phase is StoppingCapture <==> reply->ActiveStream_0 == Some(
            undo_stream(undo.phase),
        )) && (progress->Next_0.phase is ListingBuffers <==> reply->ActiveStream_0 != Some(
            undo_stream(undo.phase),
        )),
        undo.phase is StoppingCapture && reply is Done ==> (progress is Failed <==> reply->Done_0
            is Err) && (progress is Next ==> progress->Next_0.phase is ListingBuffers),
        undo.phase is ListingBuffers && reply is Buffers ==> (progress is Next <==> reply->Buffers_0)
            && (progress is Next ==> progress->Next_0.phase is DestroyingPool),
        undo.phase is DestroyingPool && reply is Done ==> progress is Failed,
        undo.phase is StoppingSource && reply is Source && progress is Failed
            ==> progress->Failed_0@.message == reply->Source_0->Failed_0@,
        undo.phase is StoppingCapture && reply is Done && progress is Failed
            ==> progress->Failed_0@.message == reply->Done_0->Err_0@,
        undo.phase is DestroyingPool && reply is Done && reply->Done_0 is Err
            ==> progress->Failed_0@.message == reply->Done_0->Err_0@,
{
}

} // verus!
