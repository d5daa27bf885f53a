//! The way of a captured frame to the media graph.

use crate::castkms_actor::actor::frame_without_generation;
use crate::castkms_actor::frames::{
    answered_at, changed_pixel, covers, describes_damage, frame_fault, frame_readiness, frames_answer_the_request_they_name, handle_capture_frame,
    operation_result, published_frame, take_matched, CaptureFrameEvent, MatchedFrame, TimedOutcome,
    VideoFrame,
};
use crate::castkms_actor::{
    ActiveGeneration, GenerationView, OutstandingCapture, PipeWireBufferTransport,
};
use crate::kernel_display_port::{kernel_error, KernelDisplayError, KernelErrorView};
use crate::nonzero::NonZeroU32;
use vstd::prelude::*;

verus! {

/// What a frame waits for.
#[derive(Debug, Clone, Copy, PartialEq, Eq, Structural)]
pub enum FramePhase {
    /// The completion of the capture, within its time.
    Waiting { frame: CaptureFrameEvent, matched: MatchedFrame },
    /// The kernel, to which the completion of the request is handed on.
    Delegating { frame: CaptureFrameEvent, matched: MatchedFrame, capture: OutstandingCapture },
    /// The media graph.
    Publishing(VideoFrame),
}

/// What came of it.
#[derive(Debug, PartialEq, Eq)]
pub enum FrameReply {
    Waited(TimedOutcome),
    /// The buffer of the completed request.
    Delegated(Result<NonZeroU32, String>),
    Published(Result<(), String>),
}

/// How a frame goes on.
#[derive(Debug, PartialEq, Eq)]
pub enum FrameProgress {
    Next(FramePhase),
    Published,
    Failed(KernelDisplayError),
}

/// The frame fails with the error.
pub open spec fn frame_fails(progress: FrameProgress, error: KernelErrorView) -> bool {
    progress matches FrameProgress::Failed(failure) && failure@ == error
}

/// The request of the frame is no longer out, and its completion is handed on.
pub open spec fn delegates(
    active: GenerationView,
    frame: CaptureFrameEvent,
    index: int,
    after: Option<GenerationView>,
    progress: FrameProgress,
) -> bool {
    &&& after == Some(
        GenerationView { outstanding: active.outstanding.remove(index), ..active },
    )
    &&& progress matches FrameProgress::Next(
        FramePhase::Delegating { frame: handed, matched, capture },
    )
    &&& handed == frame
    &&& describes_damage(matched.damage, frame)
    &&& capture == active.outstanding[index]
}

/// The frame answers the request at the place, and goes on.
pub open spec fn answers_request(
    active: GenerationView,
    frame: CaptureFrameEvent,
    index: int,
    after: Option<GenerationView>,
    progress: FrameProgress,
) -> bool {
    &&& answered_at(active.outstanding, frame, index)
    &&& match frame_fault(active.stream, frame) {
        Some(fault) => after == Some(active) && frame_fails(progress, fault),
        None => if active.outstanding[index].transport
            == PipeWireBufferTransport::ReadyBeforePublish {
            &&& after == Some(active)
            &&& progress matches FrameProgress::Next(FramePhase::Waiting { frame: held, matched })
            &&& held == frame
            &&& matched.index == index
            &&& describes_damage(matched.damage, frame)
        } else {
            delegates(active, frame, index, after, progress)
        },
    }
}

/// A frame that arrived was taken in as it is due.
pub open spec fn frame_arrives(
    before: Option<GenerationView>,
    frame: CaptureFrameEvent,
    after: Option<GenerationView>,
    progress: FrameProgress,
) -> bool {
    match before {
        None => after is None && frame_fails(
            progress,
            kernel_error(
                "handle CastKMS capture frame"@,
                "frame arrived without an active media generation"@,
            ),
        ),
        Some(active) => if exists|index: int| answered_at(active.outstanding, frame, index) {
            exists|index: int| #[trigger]
                answers_request(active, frame, index, after, progress)
        } else {
            &&& after == before
            &&& frame_fails(
                progress,
                kernel_error(
                    "handle CastKMS capture frame"@,
                    "frame identity differs from every outstanding buffer"@,
                ),
            )
        },
    }
}

/// The phase belongs to a request that is still out.
pub open spec fn frame_fits(active: Option<GenerationView>, phase: FramePhase) -> bool {
    phase matches FramePhase::Waiting { frame, matched } ==> {
        &&& active is Some
        &&& active->0.wf()
        &&& matched.index < active->0.outstanding.len()
        &&& describes_damage(matched.damage, frame)
    }
}

/// A frame goes on as it is due. It keeps waiting where the reply is not the
/// one that it waits for.
pub open spec fn frame_reacts(
    before: Option<GenerationView>,
    phase: FramePhase,
    reply: FrameReply,
    after: Option<GenerationView>,
    progress: FrameProgress,
) -> bool {
    match (phase, reply) {
        (FramePhase::Waiting { frame, matched }, FrameReply::Waited(outcome)) => match outcome {
            TimedOutcome::Done => delegates(
                before->0,
                frame,
                matched.index as int,
                after,
                progress,
            ),
            TimedOutcome::Failed(text) => after == before && frame_fails(
                progress,
                kernel_error("wait for CastKMS capture readiness"@, text@),
            ),
            TimedOutcome::TimedOut => after == before && frame_fails(
                progress,
                kernel_error(
                    "wait for CastKMS capture readiness"@,
                    "timed out before publishing a waited PipeWire buffer"@,
                ),
            ),
        },
        (
            FramePhase::Delegating { frame, matched, capture },
            FrameReply::Delegated(delegated),
        ) => {
            &&& after == before
            &&& match delegated {
                Err(text) => frame_fails(
                    progress,
                    kernel_error("delegate CastKMS capture completion"@, text@),
                ),
                Ok(buffer_id) => progress == FrameProgress::Next(
                    FramePhase::Publishing(
                        VideoFrame {
                            buffer_id,
                            sequence: frame.sequence,
                            pts_ns: frame.timestamp_ns,
                            damage: matched.damage,
                            discontinuity: frame.dropped_frames != 0,
                            acquire_point: match capture.transport {
                                PipeWireBufferTransport::ReadyBeforePublish => None,
                                PipeWireBufferTransport::SyncTimeline => capture.queue.ready_point,
                            },
                        },
                    ),
                ),
            }
        },
        (FramePhase::Publishing(_), FrameReply::Published(published)) => {
            &&& after == before
            &&& match published {
                Err(text) => frame_fails(
                    progress,
                    kernel_error("publish captured PipeWire frame"@, text@),
                ),
                Ok(_) => progress == FrameProgress::Published,
            }
        },
        _ => after == before && progress == FrameProgress::Next(phase),
    }
}

/// The contents of a generation, if there is one.
pub open spec fn generation_view(active: Option<ActiveGeneration>) -> Option<GenerationView> {
    match active {
        Some(active) => Some(active@),
        None => None,
    }
}

fn delegate(active: &mut ActiveGeneration, frame: CaptureFrameEvent, matched: MatchedFrame) -> (progress:
    FrameProgress)
    requires
        old(active)@.wf(),
        matched.index < old(active)@.outstanding.len(),
        describes_damage(matched.damage, frame),
    ensures
        final(active)@.wf(),
        delegates(
            old(active)@,
            frame,
            matched.index as int,
            Some(final(active)@),
            progress,
        ),
{
    let capture = take_matched(active, matched);
    FrameProgress::Next(FramePhase::Delegating { frame, matched, capture })
}

impl FramePhase {
    /// Take in a frame that the kernel has captured.
    pub fn arrive(active: &mut Option<ActiveGeneration>, frame: CaptureFrameEvent) -> (progress:
        FrameProgress)
        requires
            generation_view(*old(active)) matches Some(held) ==> held.wf(),
        ensures
            generation_view(*final(active)) matches Some(held) ==> held.wf(),
            frame_arrives(
                generation_view(*old(active)),
                frame,
                generation_view(*final(active)),
                progress,
            ),
            progress matches FrameProgress::Next(phase) ==> frame_fits(
                generation_view(*final(active)),
                phase,
            ),
    {
        let ghost before = generation_view(*active);
        match active {
            None => FrameProgress::Failed(frame_without_generation()),
            Some(generation) => match handle_capture_frame(generation, frame) {
                Err(error) => {
                    let progress = FrameProgress::Failed(error);
                    proof {
                        let held = before->0;
                        if exists|index: int| answered_at(held.outstanding, frame, index) {
                            let index = choose|index: int|
                                answered_at(held.outstanding, frame, index);
                            assert(answers_request(held, frame, index, Some(held), progress));
                        }
                    }
                    progress
                },
                Ok(matched) => if matched.wait {
                    let progress = FrameProgress::Next(FramePhase::Waiting { frame, matched });
                    proof {
                        let held = before->0;
                        assert(answers_request(
                            held,
                            frame,
                            matched.index as int,
                            Some(held),
                            progress,
                        ));
                    }
                    progress
                } else {
                    let progress = delegate(generation, frame, matched);
                    proof {
                        assert(answers_request(
                            before->0,
                            frame,
                            matched.index as int,
                            Some(generation@),
                            progress,
                        ));
                    }
                    progress
                },
            },
        }
    }

    /// Go on with what came of a phase.
    pub fn proceed(self, active: &mut Option<ActiveGeneration>, reply: FrameReply) -> (progress:
        FrameProgress)
        requires
            generation_view(*old(active)) matches Some(held) ==> held.wf(),
            frame_fits(generation_view(*old(active)), self),
        ensures
            generation_view(*final(active)) matches Some(held) ==> held.wf(),
            frame_reacts(
                generation_view(*old(active)),
                self,
                reply,
                generation_view(*final(active)),
                progress,
            ),
    {
        match (self, reply) {
            (FramePhase::Waiting { frame, matched }, FrameReply::Waited(outcome)) => {
                match frame_readiness(outcome) {
                    Err(error) => FrameProgress::Failed(error),
                    Ok(()) => match active {
                        None => FrameProgress::Next(self),
                        Some(generation) => delegate(generation, frame, matched),
                    },
                }
            },
            (
                FramePhase::Delegating { frame, matched, capture },
                FrameReply::Delegated(delegated),
            ) => match published_frame(frame, matched, capture, delegated) {
                Err(error) => FrameProgress::Failed(error),
                Ok(published) => FrameProgress::Next(FramePhase::Publishing(published)),
            },
            (FramePhase::Publishing(_), FrameReply::Published(published)) => {
                match operation_result("publish captured PipeWire frame", published) {
                    Err(error) => FrameProgress::Failed(error),
                    Ok(()) => FrameProgress::Published,
                }
            },
            _ => FrameProgress::Next(self),
        }
    }
}

/// A request that a frame answers is given up exactly when its completion is
/// handed on; a frame that fails before leaves every request out.
pub proof fn answered_requests_leave_once(
    active: GenerationView,
    frame: CaptureFrameEvent,
    after: Option<GenerationView>,
    progress: FrameProgress,
)
    requires
        frame_arrives(Some(active), frame, after, progress),
    ensures
        after is Some,
        progress is Failed ==> after == Some(active),
        progress matches FrameProgress::Next(FramePhase::Delegating { .. })
            ==> after->0.outstanding.len() == active.outstanding.len() - 1,
{
    if exists|index: int| answered_at(active.outstanding, frame, index) {
        let index = choose|index: int| #[trigger]
            answers_request(active, frame, index, after, progress);
        assert(answered_at(active.outstanding, frame, index));
    }
}

/// A frame on its way carries what the kernel reported, and damage that covers
/// exactly the pixels that have changed.
pub open spec fn carries(phase: FramePhase, event: CaptureFrameEvent) -> bool {
    match phase {
        FramePhase::Waiting { frame, matched } => frame == event && forall|column: int, row: int|
            #[trigger] covers(matched.damage, column, row) <==> changed_pixel(event, column, row),
        FramePhase::Delegating { frame, matched, capture } => {
            &&& frame == event
            &&& capture.queue.buffer_id@ == event.buffer_id
            &&& capture.queue.user_data@ == event.user_data
            &&& forall|column: int, row: int|
                #[trigger] covers(matched.damage, column, row) <==> changed_pixel(
                    event,
                    column,
                    row,
                )
        },
        FramePhase::Publishing(video) => {
            &&& video.sequence == event.sequence
            &&& video.pts_ns == event.timestamp_ns
            &&& video.discontinuity <==> event.dropped_frames > 0
            &&& forall|column: int, row: int|
                #[trigger] covers(video.damage, column, row) <==> changed_pixel(event, column, row)
        },
    }
}

/// What arrives is what goes on: a frame that is not refused carries what the
/// kernel reported of it.
pub proof fn arrived_frames_carry_their_event(
    before: Option<GenerationView>,
    frame: CaptureFrameEvent,
    after: Option<GenerationView>,
    progress: FrameProgress,
)
    requires
        frame_arrives(before, frame, after, progress),
    ensures
        !(progress is Published),
        progress matches FrameProgress::Next(phase) ==> carries(phase, frame) && !(phase
            is Publishing) && before is Some && exists|i: int|
            0 <= i < before->0.outstanding.len() && (
            #[trigger] before->0.outstanding[i]).queue.buffer_id@ == frame.buffer_id
                && before->0.outstanding[i].queue.user_data@ == frame.user_data
                && before->0.outstanding[i].queue.stream_id@ == frame.stream_id,
        progress is Next ==> frame.status == 0 && frame.mode_generation
            == before->0.stream.mode_generation@ && frame.damage_x >= 0 && frame.damage_y >= 0
            && frame.damage_width > 0 && frame.damage_height > 0,
{
    if let Some(active) = before {
        if exists|index: int| answered_at(active.outstanding, frame, index) {
            let index = choose|index: int| #[trigger]
                answers_request(active, frame, index, after, progress);
            assert(answered_at(active.outstanding, frame, index));
            frames_answer_the_request_they_name(active.outstanding, frame, index);
            if let FrameProgress::Next(phase) = progress {
                assert(active.outstanding[index].queue.buffer_id@ == frame.buffer_id);
            }
        }
    }
}

/// A frame that goes on keeps what it carries, up to its publication.
pub proof fn published_frames_show_what_was_captured(
    before: Option<GenerationView>,
    phase: FramePhase,
    event: CaptureFrameEvent,
    reply: FrameReply,
    after: Option<GenerationView>,
    progress: FrameProgress,
)
    requires
        frame_fits(before, phase),
        carries(phase, event),
        phase matches FramePhase::Waiting { matched, .. } ==> answered_at(
            before->0.outstanding,
            event,
            matched.index as int,
        ),
        frame_reacts(before, phase, reply, after, progress),
    ensures
        progress matches FrameProgress::Next(next) ==> carries(next, event),
        progress is Published ==> phase is Publishing,
        phase is Delegating && reply is Delegated && progress is Next ==> {
            &&& progress->Next_0 is Publishing
            &&& progress->Next_0->Publishing_0.buffer_id == reply->Delegated_0->Ok_0
            &&& phase->Delegating_capture.transport == PipeWireBufferTransport::SyncTimeline
                ==> progress->Next_0->Publishing_0.acquire_point
                == phase->Delegating_capture.queue.ready_point
            &&& phase->Delegating_capture.transport == PipeWireBufferTransport::ReadyBeforePublish
                ==> progress->Next_0->Publishing_0.acquire_point is None
        },
{
    if let FramePhase::Waiting { frame, matched } = phase {
        frames_answer_the_request_they_name(
            before->0.outstanding,
            event,
            matched.index as int,
        );
    }
}

/// A buffer whose consumer cannot wait for it is published only after its capture is
/// complete; the others go on at once.
pub proof fn unready_buffers_are_waited_for(
    active: GenerationView,
    frame: CaptureFrameEvent,
    after: Option<GenerationView>,
    progress: FrameProgress,
)
    requires
        frame_arrives(Some(active), frame, after, progress),
    ensures
        progress matches FrameProgress::Next(FramePhase::Waiting { matched, .. })
            ==> matched.index < active.outstanding.len()
            && active.outstanding[matched.index as int].transport
            == PipeWireBufferTransport::ReadyBeforePublish && answered_at(
            active.outstanding,
            frame,
            matched.index as int,
        ),
        progress matches FrameProgress::Next(FramePhase::Delegating { capture, .. })
            ==> capture.transport == PipeWireBufferTransport::SyncTimeline
            && active.outstanding.contains(capture),
{
    if exists|index: int| answered_at(active.outstanding, frame, index) {
        let index = choose|index: int| #[trigger]
            answers_request(active, frame, index, after, progress);
        assert(answered_at(active.outstanding, frame, index));
    }
}

} // verus!
