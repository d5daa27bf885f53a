//! Buffers between the kernel and the video source.

use crate::castkms_actor::{
    source_generation_is_current, ActiveGeneration, CaptureQueue, CaptureStreamInfo,
    GenerationView, OutstandingCapture, PipeWireBufferTransport, VideoNodeIdentity,
    MAX_OUTSTANDING_CAPTURE_REQUESTS,
};
use crate::kernel_display_port::{kernel_error, KernelDisplayError, KernelErrorView};
use crate::nonzero::{nonzero_u32_ext, nonzero_u64_ext, NonZeroU32, NonZeroU64};
use crate::text::{decimal, push_decimal, push_signed_decimal, signed_decimal};
use vstd::prelude::*;
use vstd::string::*;

verus! {

broadcast use {nonzero_u32_ext, nonzero_u64_ext};

/// What the video source reports.
#[derive(Debug, PartialEq, Eq)]
pub enum VideoSourceActorEvent {
    BufferAvailable {
        media_generation: NonZeroU64,
        buffer_id: NonZeroU32,
        transport: PipeWireBufferTransport,
    },
    BufferReleased { media_generation: NonZeroU64, buffer_id: NonZeroU32, sequence: u64 },
    GenerationFailed { identity: VideoNodeIdentity, error: String },
}

impl VideoSourceActorEvent {
    pub open spec fn generation(self) -> NonZeroU64 {
        match self {
            VideoSourceActorEvent::BufferAvailable { media_generation, .. } => media_generation,
            VideoSourceActorEvent::BufferReleased { media_generation, .. } => media_generation,
            VideoSourceActorEvent::GenerationFailed { identity, .. } => identity.media_generation,
        }
    }
}

/// The generation that an event is about.
pub fn source_event_generation(event: &VideoSourceActorEvent) -> (generation: NonZeroU64)
    ensures
        generation == event.generation(),
{
    match event {
        VideoSourceActorEvent::BufferAvailable { media_generation, .. }
        | VideoSourceActorEvent::BufferReleased { media_generation, .. } => *media_generation,
        VideoSourceActorEvent::GenerationFailed { identity, .. } => identity.media_generation,
    }
}

/// What is left to do about an event of the source.
#[derive(Debug, PartialEq, Eq)]
pub enum SourceStep {
    Done,
    /// Give a buffer back to the kernel.
    Release { stream_id: NonZeroU32, buffer_id: NonZeroU32 },
}

/// A sentence about one buffer.
pub open spec fn buffer_message(buffer_id: NonZeroU32, rest: Seq<char>) -> Seq<char> {
    "buffer "@ + decimal(buffer_id@ as nat) + rest
}

fn about_buffer(buffer_id: NonZeroU32, rest: &str) -> (text: String)
    ensures
        text@ == buffer_message(buffer_id, rest@),
{
    let mut text = "buffer ".to_owned();
    push_decimal(&mut text, buffer_id.get() as u64);
    text.append(rest);
    text
}

/// What an event of the source does to the active generation, and what is left
/// to do.
pub open spec fn source_handled(active: GenerationView, event: VideoSourceActorEvent) -> (
    GenerationView,
    Result<SourceStep, KernelErrorView>,
) {
    let operation = "handle PipeWire source event"@;
    if event.generation()@ < active.media_generation@ {
        (active, Ok(SourceStep::Done))
    } else if event.generation()@ > active.media_generation@ {
        (
            active,
            Err(
                kernel_error(
                    operation,
                    "event generation "@ + decimal(event.generation()@ as nat)
                        + "; active generation is "@ + decimal(active.media_generation@ as nat),
                ),
            ),
        )
    } else {
        match event {
            VideoSourceActorEvent::BufferAvailable { media_generation, buffer_id, transport } => {
                if active.transports.dom().contains(buffer_id@) {
                    (
                        active,
                        Err(
                            kernel_error(
                                operation,
                                buffer_message(buffer_id, " negotiated its transport twice"@),
                            ),
                        ),
                    )
                } else {
                    (
                        GenerationView {
                            transports: active.transports.insert(buffer_id@, transport),
                            available: active.available.push(buffer_id),
                            ..active
                        },
                        Ok(SourceStep::Done),
                    )
                }
            },
            VideoSourceActorEvent::BufferReleased { media_generation, buffer_id, sequence } => {
                if !active.transports.dom().contains(buffer_id@) {
                    (
                        active,
                        Err(
                            kernel_error(
                                operation,
                                buffer_message(
                                    buffer_id,
                                    " was released before transport negotiation"@,
                                ),
                            ),
                        ),
                    )
                } else {
                    (
                        active,
                        Ok(
                            SourceStep::Release {
                                stream_id: active.stream.stream_id,
                                buffer_id,
                            },
                        ),
                    )
                }
            },
            VideoSourceActorEvent::GenerationFailed { identity, error } => (
                GenerationView { source_active: false, ..active },
                Err(kernel_error("run PipeWire source generation"@, error@)),
            ),
        }
    }
}

/// Take in an event of the source.
pub fn handle_source_event(active: &mut ActiveGeneration, event: VideoSourceActorEvent) -> (result:
    Result<SourceStep, KernelDisplayError>)
    requires
        old(active)@.wf(),
    ensures
        final(active)@.wf(),
        final(active)@ == source_handled(old(active)@, event).0,
        match source_handled(old(active)@, event).1 {
            Ok(step) => result == Ok::<_, KernelDisplayError>(step),
            Err(error) => result is Err && result->Err_0@ == error,
        },
{
    let generation = source_event_generation(&event);
    match source_generation_is_current(active.media_generation, generation) {
        Err(error) => {
            return Err(error);
        },
        Ok(false) => {
            return Ok(SourceStep::Done);
        },
        Ok(true) => {},
    }
    match event {
        VideoSourceActorEvent::BufferAvailable { media_generation: _, buffer_id, transport } => {
            if active.transports.contains_key(&buffer_id.get()) {
                return Err(
                    KernelDisplayError {
                        operation: "handle PipeWire source event",
                        message: about_buffer(buffer_id, " negotiated its transport twice"),
                    },
                );
            }
            active.transports.insert(buffer_id.get(), transport);
            active.available.push_back(buffer_id);
            Ok(SourceStep::Done)
        },
        VideoSourceActorEvent::BufferReleased { media_generation: _, buffer_id, sequence: _ } => {
            if !active.transports.contains_key(&buffer_id.get()) {
                return Err(
                    KernelDisplayError {
                        operation: "handle PipeWire source event",
                        message: about_buffer(
                            buffer_id,
                            " was released before transport negotiation",
                        ),
                    },
                );
            }
            Ok(SourceStep::Release { stream_id: active.stream.stream_id, buffer_id })
        },
        VideoSourceActorEvent::GenerationFailed { identity: _, error } => {
            active.source_active = false;
            Err(KernelDisplayError { operation: "run PipeWire source generation", message: error })
        },
    }
}

/// Take in the kernel's reply to the return of a buffer.
pub fn buffer_released(
    active: &mut ActiveGeneration,
    buffer_id: NonZeroU32,
    reply: Result<(), String>,
) -> (result: Result<(), KernelDisplayError>)
    requires
        old(active)@.wf(),
        old(active)@.transports.dom().contains(buffer_id@),
    ensures
        final(active)@.wf(),
        match reply {
            Ok(_) => {
                &&& result is Ok
                &&& final(active)@ == (GenerationView {
                    available: old(active)@.available.push(buffer_id),
                    ..old(active)@
                })
            },
            Err(text) => {
                &&& result is Err
                &&& result->Err_0@ == kernel_error("release CastKMS capture buffer"@, text@)
                &&& final(active)@ == old(active)@
            },
        },
{
    match reply {
        Ok(()) => {
            active.available.push_back(buffer_id);
            Ok(())
        },
        Err(text) => Err(
            KernelDisplayError { operation: "release CastKMS capture buffer", message: text },
        ),
    }
}

/// A buffer could be queued.
pub open spec fn queue_open(active: GenerationView) -> bool {
    &&& !active.suspended
    &&& active.outstanding.len() < MAX_OUTSTANDING_CAPTURE_REQUESTS
    &&& active.available.len() > 0
}

/// Whether to try again to queue a buffer after a while.
pub fn capture_queue_needs_retry(active: Option<&ActiveGeneration>) -> (needed: bool)
    ensures
        needed == (active matches Some(active) && queue_open(active@)),
{
    match active {
        Some(active) => !active.suspended && active.outstanding.len()
            < MAX_OUTSTANDING_CAPTURE_REQUESTS && active.available.len() > 0,
        None => false,
    }
}

/// A request that the kernel is asked to take.
#[derive(Debug, Clone, Copy, PartialEq, Eq, Structural)]
pub struct QueueRequest {
    pub buffer_id: NonZeroU32,
    pub user_data: NonZeroU64,
    pub transport: PipeWireBufferTransport,
}

/// Why a buffer could not be queued.
#[derive(Debug, PartialEq, Eq)]
pub enum QueueFailure {
    Recoverable(KernelDisplayError),
    /// The kernel took the request, but nothing can tell when it is done.
    /// Letting go of the sole owner is the only safe way out.
    Fatal(KernelDisplayError),
}

/// What the kernel says to a request.
#[derive(Debug, PartialEq, Eq)]
pub enum QueueReply {
    Queued(CaptureQueue),
    Busy,
    Failed(String),
}

/// The first buffer leaves the list of available ones.
pub open spec fn picked(active: GenerationView) -> GenerationView {
    GenerationView { available: active.available.drop_first(), ..active }
}

/// A buffer is the first available one again.
pub open spec fn put_back(active: GenerationView, buffer_id: NonZeroU32) -> GenerationView {
    GenerationView { available: seq![buffer_id] + active.available, ..active }
}

/// The number of a request is used up. There is none after the last.
pub open spec fn numbered(active: GenerationView) -> GenerationView {
    GenerationView {
        next_user_data: if active.next_user_data == u64::MAX {
            0
        } else {
            (active.next_user_data + 1) as u64
        },
        ..active
    }
}

/// Pick the buffer to queue next, if one can be queued.
///
/// The buffer leaves the list of available ones.
pub fn maybe_queue(active: &mut ActiveGeneration) -> (result: Result<
    Option<QueueRequest>,
    QueueFailure,
>)
    requires
        old(active)@.wf(),
    ensures
        final(active)@.wf(),
        !queue_open(old(active)@) ==> {
            &&& result == Ok::<Option<QueueRequest>, QueueFailure>(None)
            &&& final(active)@ == old(active)@
        },
        queue_open(old(active)@) ==> {
            &&& final(active)@ == picked(old(active)@)
            &&& match result {
                Ok(request) => {
                    &&& old(active)@.next_user_data != 0
                    &&& request is Some
                    &&& request->0.buffer_id == old(active)@.available[0]
                    &&& request->0.user_data@ == old(active)@.next_user_data
                    &&& request->0.transport == old(
                        active,
                    )@.transports[old(active)@.available[0]@]
                },
                Err(failure) => {
                    &&& old(active)@.next_user_data == 0
                    &&& failure matches QueueFailure::Recoverable(error) && error@ == kernel_error(
                        "queue CastKMS capture buffer"@,
                        "user-data counter overflowed"@,
                    )
                },
            }
        },
{
    if active.suspended || active.outstanding.len() >= MAX_OUTSTANDING_CAPTURE_REQUESTS {
        return Ok(None);
    }
    let ghost before = active@;
    let buffer_id = match active.available.pop_front() {
        Some(buffer_id) => buffer_id,
        None => {
            return Ok(None);
        },
    };
    proof {
        assert(active@.available =~= before.available.drop_first());
        assert forall|i: int| 0 <= i < active@.available.len() implies before.transports.dom().contains(
            (#[trigger] active@.available[i])@,
        ) by {
            assert(active@.available[i] == before.available[i + 1]);
        }
        assert(before.transports.dom().contains(before.available[0]@));
    }
    let transport = match active.transports.get(&buffer_id.get()) {
        Some(transport) => *transport,
        None => {
            return Err(
                QueueFailure::Fatal(
                    KernelDisplayError {
                        operation: "queue CastKMS capture buffer",
                        message: about_buffer(
                            buffer_id,
                            " has no negotiated PipeWire transport",
                        ),
                    },
                ),
            );
        },
    };
    let user_data = match NonZeroU64::new(active.next_user_data) {
        Some(user_data) => user_data,
        None => {
            return Err(
                QueueFailure::Recoverable(
                    KernelDisplayError::new(
                        "queue CastKMS capture buffer",
                        "user-data counter overflowed",
                    ),
                ),
            );
        },
    };
    Ok(Some(QueueRequest { buffer_id, user_data, transport }))
}

/// Take in the kernel's reply to a request: the request that is now out, and
/// whose completion is to be armed, or none if the kernel is busy.
pub fn finish_queue(active: &mut ActiveGeneration, request: QueueRequest, reply: QueueReply) -> (
result: Result<Option<OutstandingCapture>, QueueFailure>)
    requires
        old(active)@.wf(),
        old(active)@.transports.dom().contains(request.buffer_id@),
    ensures
        final(active)@.wf(),
        match reply {
            QueueReply::Queued(queue) => {
                &&& result == Ok::<_, QueueFailure>(
                    Some(OutstandingCapture { queue, transport: request.transport }),
                )
                &&& final(active)@ == numbered(old(active)@)
            },
            QueueReply::Busy => {
                &&& result == Ok::<Option<OutstandingCapture>, QueueFailure>(None)
                &&& final(active)@ == put_back(old(active)@, request.buffer_id)
            },
            QueueReply::Failed(text) => {
                &&& result matches Err(QueueFailure::Recoverable(error)) && error@ == kernel_error(
                    "queue CastKMS capture buffer"@,
                    text@,
                )
                &&& final(active)@ == old(active)@
            },
        },
{
    let ghost before = active@;
    match reply {
        QueueReply::Queued(queue) => {
            active.next_user_data = match active.next_user_data.checked_add(1) {
                Some(next) => next,
                None => 0,
            };
            Ok(Some(OutstandingCapture { queue, transport: request.transport }))
        },
        QueueReply::Busy => {
            active.available.push_front(request.buffer_id);
            proof {
                assert(active@.available =~= seq![request.buffer_id] + before.available);
                assert forall|i: int|
                    0 <= i
                        < active@.available.len() implies before.transports.dom().contains(
                    (#[trigger] active@.available[i])@,
                ) by {
                    if i > 0 {
                        assert(active@.available[i] == before.available[i - 1]);
                    }
                }
            }
            Ok(None)
        },
        QueueReply::Failed(text) => Err(
            QueueFailure::Recoverable(
                KernelDisplayError { operation: "queue CastKMS capture buffer", message: text },
            ),
        ),
    }
}

/// Note a request as out, once its completion is armed.
pub fn finish_arming(
    active: &mut ActiveGeneration,
    capture: OutstandingCapture,
    reply: Result<(), String>,
) -> (result: Result<(), QueueFailure>)
    requires
        old(active)@.wf(),
        old(active)@.outstanding.len() < MAX_OUTSTANDING_CAPTURE_REQUESTS,
    ensures
        final(active)@.wf(),
        match reply {
            Ok(_) => {
                &&& result is Ok
                &&& final(active)@ == (GenerationView {
                    outstanding: old(active)@.outstanding.push(capture),
                    ..old(active)@
                })
            },
            Err(text) => {
                &&& result matches Err(QueueFailure::Fatal(error)) && error@ == kernel_error(
                    "arm CastKMS capture fence"@,
                    text@,
                )
                &&& final(active)@ == old(active)@
            },
        },
{
    match reply {
        Ok(()) => {
            active.outstanding.push_back(capture);
            Ok(())
        },
        Err(text) => Err(
            QueueFailure::Fatal(
                KernelDisplayError { operation: "arm CastKMS capture fence", message: text },
            ),
        ),
    }
}

/// What the kernel reports of a finished request.
#[derive(Debug, Clone, Copy, PartialEq, Eq, Structural)]
pub struct CaptureFrameEvent {
    pub stream_id: u32,
    pub buffer_id: u32,
    pub user_data: u64,
    pub status: i32,
    pub mode_generation: u64,
    pub damage_x: i32,
    pub damage_y: i32,
    pub damage_width: u32,
    pub damage_height: u32,
    pub sequence: u64,
    pub timestamp_ns: u64,
    pub dropped_frames: u32,
}

/// The part of a frame that differs from the one before.
#[derive(Debug, Clone, Copy, PartialEq, Eq, Structural)]
pub struct VideoDamage {
    pub x: u32,
    pub y: u32,
    pub width: NonZeroU32,
    pub height: NonZeroU32,
}

/// A frame for the source to publish.
#[derive(Debug, Clone, Copy, PartialEq, Eq, Structural)]
pub struct VideoFrame {
    pub buffer_id: NonZeroU32,
    pub sequence: u64,
    pub pts_ns: u64,
    pub damage: VideoDamage,
    pub discontinuity: bool,
    pub acquire_point: Option<u64>,
}

/// The frame answers the request.
pub open spec fn answers(queue: CaptureQueue, frame: CaptureFrameEvent) -> bool {
    &&& frame.stream_id == queue.stream_id@
    &&& frame.buffer_id == queue.buffer_id@
    &&& frame.user_data == queue.user_data@
}

pub fn capture_queue_matches_frame(queue: &CaptureQueue, frame: &CaptureFrameEvent) -> (matched:
    bool)
    ensures
        matched == answers(*queue, *frame),
{
    frame.stream_id == queue.stream_id.get() && frame.buffer_id == queue.buffer_id.get()
        && frame.user_data == queue.user_data.get()
}

/// Where the first request stands that a frame answers.
pub open spec fn answered_at(
    outstanding: Seq<OutstandingCapture>,
    frame: CaptureFrameEvent,
    index: int,
) -> bool {
    &&& 0 <= index < outstanding.len()
    &&& answers(outstanding[index].queue, frame)
    &&& forall|i: int| 0 <= i < index ==> !answers((#[trigger] outstanding[i]).queue, frame)
}

/// What is wrong with a frame that answers a request, if anything.
pub open spec fn frame_fault(stream: CaptureStreamInfo, frame: CaptureFrameEvent) -> Option<
    KernelErrorView,
> {
    if frame.status != 0 || frame.mode_generation != stream.mode_generation@ {
        Some(
            kernel_error(
                "handle CastKMS capture frame"@,
                "capture completed with status "@ + signed_decimal(frame.status as int)
                    + " at mode generation "@ + decimal(frame.mode_generation as nat),
            ),
        )
    } else if frame.damage_x < 0 {
        Some(kernel_error("publish captured frame"@, "negative damage x coordinate"@))
    } else if frame.damage_y < 0 {
        Some(kernel_error("publish captured frame"@, "negative damage y coordinate"@))
    } else if frame.damage_width == 0 {
        Some(kernel_error("publish captured frame"@, "zero damage width"@))
    } else if frame.damage_height == 0 {
        Some(kernel_error("publish captured frame"@, "zero damage height"@))
    } else {
        None
    }
}

/// The damage describes the rectangle that the frame names.
pub open spec fn describes_damage(damage: VideoDamage, frame: CaptureFrameEvent) -> bool {
    &&& damage.x == frame.damage_x
    &&& damage.y == frame.damage_y
    &&& damage.width@ == frame.damage_width
    &&& damage.height@ == frame.damage_height
}

/// A frame that is to be published, and whether to wait for it first.
#[derive(Debug, Clone, Copy, PartialEq, Eq, Structural)]
pub struct MatchedFrame {
    pub index: usize,
    pub damage: VideoDamage,
    pub wait: bool,
}

/// Match a frame with the request that it answers.
pub fn handle_capture_frame(active: &ActiveGeneration, frame: CaptureFrameEvent) -> (result: Result<
    MatchedFrame,
    KernelDisplayError,
>)
    ensures
        match result {
            Ok(matched) => {
                &&& answered_at(active@.outstanding, frame, matched.index as int)
                &&& frame_fault(active@.stream, frame) is None
                &&& describes_damage(matched.damage, frame)
                &&& matched.wait == (active@.outstanding[matched.index as int].transport
                    == PipeWireBufferTransport::ReadyBeforePublish)
            },
            Err(error) => if exists|index: int| answered_at(active@.outstanding, frame, index) {
                frame_fault(active@.stream, frame) == Some(error@)
            } else {
                error@ == kernel_error(
                    "handle CastKMS capture frame"@,
                    "frame identity differs from every outstanding buffer"@,
                )
            },
        },
{
    let mut index: usize = 0;
    while index < active.outstanding.len() && !capture_queue_matches_frame(
        &active.outstanding[index].queue,
        &frame,
    )
        invariant
            index <= active.outstanding@.len(),
            forall|i: int|
                0 <= i < index ==> !answers((#[trigger] active.outstanding@[i]).queue, frame),
        decreases active.outstanding@.len() - index,
    {
        index += 1;
    }
    if index >= active.outstanding.len() {
        return Err(
            KernelDisplayError::new(
                "handle CastKMS capture frame",
                "frame identity differs from every outstanding buffer",
            ),
        );
    }
    proof {
        assert(answered_at(active@.outstanding, frame, index as int));
    }
    let transport = active.outstanding[index].transport;
    if frame.status != 0 || frame.mode_generation != active.stream.mode_generation.get() {
        let mut text = "capture completed with status ".to_owned();
        push_signed_decimal(&mut text, frame.status);
        text.append(" at mode generation ");
        push_decimal(&mut text, frame.mode_generation);
        return Err(
            KernelDisplayError { operation: "handle CastKMS capture frame", message: text },
        );
    }
    if frame.damage_x < 0 {
        return Err(
            KernelDisplayError::new("publish captured frame", "negative damage x coordinate"),
        );
    }
    if frame.damage_y < 0 {
        return Err(
            KernelDisplayError::new("publish captured frame", "negative damage y coordinate"),
        );
    }
    let width = match NonZeroU32::new(frame.damage_width) {
        Some(width) => width,
        None => {
            return Err(KernelDisplayError::new("publish captured frame", "zero damage width"));
        },
    };
    let height = match NonZeroU32::new(frame.damage_height) {
        Some(height) => height,
        None => {
            return Err(KernelDisplayError::new("publish captured frame", "zero damage height"));
        },
    };
    Ok(
        MatchedFrame {
            index,
            damage: VideoDamage {
                x: frame.damage_x as u32,
                y: frame.damage_y as u32,
                width,
                height,
            },
            wait: matches!(transport, PipeWireBufferTransport::ReadyBeforePublish),
        },
    )
}

/// What came of waiting with a deadline.
#[derive(Debug, PartialEq, Eq)]
pub enum TimedOutcome {
    Done,
    Failed(String),
    TimedOut,
}

/// Fail a frame that did not become complete in time.
pub fn frame_readiness(outcome: TimedOutcome) -> (result: Result<(), KernelDisplayError>)
    ensures
        match outcome {
            TimedOutcome::Done => result is Ok,
            TimedOutcome::Failed(text) => result is Err && result->Err_0@ == kernel_error(
                "wait for CastKMS capture readiness"@,
                text@,
            ),
            TimedOutcome::TimedOut => result is Err && result->Err_0@ == kernel_error(
                "wait for CastKMS capture readiness"@,
                "timed out before publishing a waited PipeWire buffer"@,
            ),
        },
{
    match outcome {
        TimedOutcome::Done => Ok(()),
        TimedOutcome::Failed(text) => Err(
            KernelDisplayError { operation: "wait for CastKMS capture readiness", message: text },
        ),
        TimedOutcome::TimedOut => Err(
            KernelDisplayError::new(
                "wait for CastKMS capture readiness",
                "timed out before publishing a waited PipeWire buffer",
            ),
        ),
    }
}

/// Take the request of a matched frame, which is no longer out.
pub fn take_matched(active: &mut ActiveGeneration, matched: MatchedFrame) -> (capture:
    OutstandingCapture)
    requires
        old(active)@.wf(),
        matched.index < old(active)@.outstanding.len(),
    ensures
        final(active)@.wf(),
        capture == old(active)@.outstanding[matched.index as int],
        final(active)@ == (GenerationView {
            outstanding: old(active)@.outstanding.remove(matched.index as int),
            ..old(active)@
        }),
{
    let capture = active.outstanding[matched.index];
    active.outstanding.remove(matched.index);
    capture
}

/// The frame to publish, once its completion has been handed on.
pub fn published_frame(
    frame: CaptureFrameEvent,
    matched: MatchedFrame,
    capture: OutstandingCapture,
    completion: Result<NonZeroU32, String>,
) -> (result: Result<VideoFrame, KernelDisplayError>)
    ensures
        match completion {
            Ok(buffer_id) => result == Ok::<_, KernelDisplayError>(
                VideoFrame {
                    buffer_id,
                    sequence: frame.sequence,
                    pts_ns: frame.timestamp_ns,
                    damage: matched.damage,
                    discontinuity: frame.dropped_frames != 0,
                    acquire_point: match capture.transport {
                        PipeWireBufferTransport::ReadyBeforePublish => None,
                        PipeWireBufferTransport::SyncTimeline => capture.queue.ready_point,
                    },
                },
            ),
            Err(text) => result is Err && result->Err_0@ == kernel_error(
                "delegate CastKMS capture completion"@,
                text@,
            ),
        },
{
    let acquire_point = match capture.transport {
        PipeWireBufferTransport::ReadyBeforePublish => None,
        PipeWireBufferTransport::SyncTimeline => capture.queue.ready_point,
    };
    match completion {
        Ok(buffer_id) => Ok(
            VideoFrame {
                buffer_id,
                sequence: frame.sequence,
                pts_ns: frame.timestamp_ns,
                damage: matched.damage,
                discontinuity: frame.dropped_frames != 0,
                acquire_point,
            },
        ),
        Err(text) => Err(
            KernelDisplayError { operation: "delegate CastKMS capture completion", message: text },
        ),
    }
}

/// An error of the given operation for a reply that failed.
pub fn operation_result(operation: &'static str, reply: Result<(), String>) -> (result: Result<
    (),
    KernelDisplayError,
>)
    ensures
        match reply {
            Ok(_) => result is Ok,
            Err(text) => result is Err && result->Err_0@ == kernel_error(operation@, text@),
        },
{
    match reply {
        Ok(()) => Ok(()),
        Err(text) => Err(KernelDisplayError { operation, message: text }),
    }
}

/// A busy kernel changes nothing: the buffer that was picked is again the
/// first, and its number is still to be used.
pub proof fn busy_queues_keep_their_order(active: GenerationView)
    requires
        queue_open(active),
    ensures
        put_back(picked(active), active.available[0]) == active,
{
    assert(seq![active.available[0]] + active.available.drop_first() =~= active.available);
}

/// No two requests have the same number: the next one is larger, until the
/// numbers are used up and nothing is queued any more.
pub proof fn request_numbers_are_used_once(active: GenerationView)
    ensures
        numbered(active).next_user_data > active.next_user_data || numbered(active).next_user_data
            == 0,
        active.next_user_data == u64::MAX <==> numbered(active).next_user_data == 0,
{
}

/// A source event of an older generation changes nothing.
pub proof fn stale_source_events_change_nothing(
    active: GenerationView,
    event: VideoSourceActorEvent,
)
    requires
        event.generation()@ < active.media_generation@,
    ensures
        source_handled(active, event) == (
            active,
            Ok::<SourceStep, KernelErrorView>(SourceStep::Done),
        ),
{
}

/// Buffers are asked for only while none of the generation's limits is met: it may
/// capture, fewer than two requests are out, and a buffer is there.
pub proof fn at_most_two_requests_are_out(active: GenerationView)
    ensures
        queue_open(active) <==> !active.suspended && active.outstanding.len() < 2
            && active.available.len() >= 1,
{
}

/// A buffer that becomes available is queued after all that were available before
/// it, and before all that come later.
pub proof fn buffers_are_queued_in_the_order_they_came(
    active: GenerationView,
    event: VideoSourceActorEvent,
)
    requires
        event is BufferAvailable,
        event.generation() == active.media_generation,
        !active.transports.dom().contains(event->BufferAvailable_buffer_id@),
    ensures
        ({
            let buffer_id = event->BufferAvailable_buffer_id;
            let (after, result) = source_handled(active, event);
            &&& result is Ok
            &&& after.available.len() == active.available.len() + 1
            &&& after.available[active.available.len() as int] == buffer_id
            &&& forall|i: int|
                0 <= i < active.available.len() ==> after.available[i] == #[trigger] active.available[i]
            &&& forall|i: int|
                0 <= i < active.available.len() ==> picked(after).available[i]
                    == #[trigger] after.available[i + 1]
            &&& picked(after).available.len() == active.available.len()
            &&& after.transports.dom().contains(buffer_id@)
            &&& after.transports[buffer_id@] == event->BufferAvailable_transport
            &&& after.outstanding == active.outstanding
            &&& after.next_user_data == active.next_user_data
        }),
{
}

/// A buffer is given back to the kernel only if it is one of this generation's, to
/// the stream that it came from, and it is not available before the kernel has it.
pub proof fn released_buffers_go_back_to_their_stream(
    active: GenerationView,
    event: VideoSourceActorEvent,
)
    ensures
        source_handled(active, event).1 matches Ok(SourceStep::Release { stream_id, buffer_id })
            ==> {
            &&& event matches VideoSourceActorEvent::BufferReleased {
                media_generation,
                buffer_id: released,
                ..
            } && released == buffer_id && media_generation@ == active.media_generation@
            &&& stream_id == active.stream.stream_id
            &&& active.transports.dom().contains(buffer_id@)
            &&& source_handled(active, event).0 == active
        },
        event is BufferReleased && event.generation()@ == active.media_generation@
            && active.transports.dom().contains(event->BufferReleased_buffer_id@)
            ==> source_handled(active, event).1 is Ok && source_handled(active, event).1->Ok_0
            is Release,
{
}

/// A source that has failed is no longer running; no other event ends it.
pub proof fn only_failures_end_the_source(active: GenerationView, event: VideoSourceActorEvent)
    ensures
        source_handled(active, event).0.source_active == (active.source_active && !(event
            is GenerationFailed && event.generation()@ == active.media_generation@)),
        source_handled(active, event).0.suspended == active.suspended,
        event.generation()@ > active.media_generation@ ==> source_handled(active, event).1 is Err
            && source_handled(active, event).0 == active,
        event is GenerationFailed && event.generation()@ == active.media_generation@
            ==> source_handled(active, event).1 is Err,
{
}

/// A pixel is in the rectangle.
pub open spec fn covers(damage: VideoDamage, column: int, row: int) -> bool {
    &&& damage.x <= column < damage.x + damage.width@
    &&& damage.y <= row < damage.y + damage.height@
}

/// The kernel says of a pixel that it has changed: columns go with x, rows with y.
pub open spec fn changed_pixel(frame: CaptureFrameEvent, column: int, row: int) -> bool {
    &&& frame.damage_x <= column
    &&& column < frame.damage_x + frame.damage_width
    &&& frame.damage_y <= row
    &&& row < frame.damage_y + frame.damage_height
}

/// A damage that describes a frame covers exactly the pixels that the kernel says
/// have changed.
pub proof fn damage_covers_the_changed_pixels(
    damage: VideoDamage,
    frame: CaptureFrameEvent,
    column: int,
    row: int,
)
    requires
        describes_damage(damage, frame),
    ensures
        covers(damage, column, row) <==> changed_pixel(frame, column, row),
{
}

/// A frame can be published only if the kernel completed it without an error, in
/// the mode that the stream was started for, with a part of the image that is
/// inside it and not empty.
pub proof fn sound_frames_have_no_fault(stream: CaptureStreamInfo, frame: CaptureFrameEvent)
    ensures
        frame_fault(stream, frame) is None <==> {
            &&& frame.status == 0
            &&& frame.mode_generation == stream.mode_generation@
            &&& exists|column: int, row: int|
                changed_pixel(frame, column, row)
            &&& forall|column: int, row: int|
                changed_pixel(frame, column, row) ==> column >= 0 && row >= 0
        },
{
    if frame.damage_width > 0 && frame.damage_height > 0 {
        assert(changed_pixel(frame, frame.damage_x as int, frame.damage_y as int));
    }
    if frame_fault(stream, frame) is Some && frame.status == 0 && frame.mode_generation
        == stream.mode_generation@ && frame.damage_width > 0 && frame.damage_height > 0 {
        assert(frame.damage_x < 0 || frame.damage_y < 0);
    }
}

/// A frame answers the request that it names by its stream, its buffer and its
/// number, and two requests with different numbers are never confused.
pub proof fn frames_answer_the_request_they_name(
    outstanding: Seq<OutstandingCapture>,
    frame: CaptureFrameEvent,
    index: int,
)
    requires
        answered_at(outstanding, frame, index),
    ensures
        outstanding[index].queue.stream_id@ == frame.stream_id,
        outstanding[index].queue.buffer_id@ == frame.buffer_id,
        outstanding[index].queue.user_data@ == frame.user_data,
        forall|i: int|
            0 <= i < index ==> (#[trigger] outstanding[i]).queue.stream_id@ != frame.stream_id
                || outstanding[i].queue.buffer_id@ != frame.buffer_id
                || outstanding[i].queue.user_data@ != frame.user_data,
{
    assert forall|i: int| 0 <= i < index implies (
    #[trigger] outstanding[i]).queue.stream_id@ != frame.stream_id
        || outstanding[i].queue.buffer_id@ != frame.buffer_id
        || outstanding[i].queue.user_data@ != frame.user_data by {
        assert(!answers(outstanding[i].queue, frame));
    }
}

/// A frame that cannot be used says the first thing that is wrong with it.
pub proof fn faulty_frames_say_what_is_wrong(stream: CaptureStreamInfo, frame: CaptureFrameEvent)
    ensures
        ({
            let fault = frame_fault(stream, frame);
            let complete = frame.status == 0 && frame.mode_generation == stream.mode_generation@;
            &&& !complete ==> fault is Some && fault->0.operation == "handle CastKMS capture frame"@
            &&& complete && frame.damage_x < 0 ==> fault == Some(
                kernel_error("publish captured frame"@, "negative damage x coordinate"@),
            )
            &&& complete && frame.damage_x >= 0 && frame.damage_y < 0 ==> fault == Some(
                kernel_error("publish captured frame"@, "negative damage y coordinate"@),
            )
            &&& complete && frame.damage_x >= 0 && frame.damage_y >= 0 && frame.damage_width == 0
                ==> fault == Some(
                kernel_error("publish captured frame"@, "zero damage width"@),
            )
            &&& complete && frame.damage_x >= 0 && frame.damage_y >= 0 && frame.damage_width > 0
                && frame.damage_height == 0 ==> fault == Some(
                kernel_error("publish captured frame"@, "zero damage height"@),
            )
        }),
        frame.status != 0 || frame.mode_generation != stream.mode_generation@ ==> ({
            let text = frame_fault(stream, frame)->0.message;
            let status = signed_decimal(frame.status as int);
            let mode = decimal(frame.mode_generation as nat);
            &&& text.subrange(30, 30 + status.len() as int) == status
            &&& text.skip(text.len() - mode.len()) == mode
        }),
{
    if frame.status != 0 || frame.mode_generation != stream.mode_generation@ {
        reveal_strlit("capture completed with status ");
        let text = frame_fault(stream, frame)->0.message;
        let status = signed_decimal(frame.status as int);
        let mode = decimal(frame.mode_generation as nat);
        assert(text.subrange(30, 30 + status.len() as int) =~= status);
        assert(text.skip(text.len() - mode.len()) =~= mode);
    }
}

} // verus!
