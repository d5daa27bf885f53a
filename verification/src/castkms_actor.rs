//! Sole owner of kernel capture and of the media source it feeds.
//!
//! One owner holds the grant, every capture request and the per-display video
//! source. What the kernel and the source reply is handed back here; the
//! decisions about it, and the bookkeeping of buffers, are this module's.

pub mod actor;
pub mod cec;
pub mod detach_sequence;
pub mod frame_sequence;
pub mod frames;
pub mod holder_sequence;
pub mod port;
pub mod start;
pub mod start_sequence;
pub mod stop;
pub mod stop_sequence;
pub mod undo_sequence;

use crate::kernel_display_port::{kernel_error, KernelDisplayError};
use crate::media_session::MediaStartRequest;
use crate::nonzero::{nonzero_u32_ext, nonzero_u64_ext, NonZeroU32, NonZeroU64};
use crate::order::same_text;
use crate::text::{decimal, join, joined, push_decimal, texts_view};
use std::collections::{HashMap, VecDeque};
use vstd::prelude::*;
use vstd::string::*;

verus! {

broadcast use {nonzero_u32_ext, nonzero_u64_ext};

/// Buffers of one capture generation.
pub const CAPTURE_POOL_SIZE: u32 = 4;

/// Most capture requests that the kernel takes at once.
pub const MAX_OUTSTANDING_CAPTURE_REQUESTS: usize = 2;

#[derive(Debug, Clone, Copy, PartialEq, Eq, Structural)]
pub enum CursorCaptureMode {
    IncludeInFrame,
    Exclude,
}

/// One capture stream of the kernel.
#[derive(Debug, Clone, Copy, PartialEq, Eq, Structural)]
pub struct CaptureStreamInfo {
    pub stream_id: NonZeroU32,
    pub crtc_id: NonZeroU32,
    pub mode_generation: NonZeroU64,
    pub width: NonZeroU32,
    pub height: NonZeroU32,
    pub refresh_hz: NonZeroU32,
    pub cursor_mode: CursorCaptureMode,
}

/// How the consumer of a buffer learns that it can be read.
#[derive(Debug, Clone, Copy, PartialEq, Eq, Structural)]
pub enum PipeWireBufferTransport {
    /// The buffer is complete before it is published.
    ReadyBeforePublish,
    /// A point on a timeline tells.
    SyncTimeline,
}

/// One video node of the media graph.
#[derive(Debug, PartialEq, Eq)]
pub struct VideoNodeIdentity {
    pub node_name: String,
    pub object_id: NonZeroU32,
    pub object_serial: NonZeroU64,
    pub media_generation: NonZeroU64,
}

/// The contents of a [`VideoNodeIdentity`].
pub struct IdentityView {
    pub node_name: Seq<char>,
    pub object_id: NonZeroU32,
    pub object_serial: NonZeroU64,
    pub media_generation: NonZeroU64,
}

impl View for VideoNodeIdentity {
    type V = IdentityView;

    open spec fn view(&self) -> IdentityView {
        IdentityView {
            node_name: self.node_name@,
            object_id: self.object_id,
            object_serial: self.object_serial,
            media_generation: self.media_generation,
        }
    }
}

impl VideoNodeIdentity {
    /// Whether two identities have the same contents.
    pub fn same(&self, other: &VideoNodeIdentity) -> (same: bool)
        ensures
            same == (self@ == other@),
    {
        same_text(self.node_name.as_str(), other.node_name.as_str()) && self.object_id
            == other.object_id && self.object_serial == other.object_serial
            && self.media_generation == other.media_generation
    }
}

/// One capture request that the kernel has taken.
#[derive(Debug, Clone, Copy, PartialEq, Eq, Structural)]
pub struct CaptureQueue {
    pub stream_id: NonZeroU32,
    pub buffer_id: NonZeroU32,
    pub user_data: NonZeroU64,
    pub ready_point: Option<u64>,
}

/// A capture request together with the transport of its buffer.
#[derive(Debug, Clone, Copy, PartialEq, Eq, Structural)]
pub struct OutstandingCapture {
    pub queue: CaptureQueue,
    pub transport: PipeWireBufferTransport,
}

/// One media generation and the buffers that it has in hand.
#[derive(Debug)]
pub struct ActiveGeneration {
    pub media_generation: NonZeroU64,
    pub stream: CaptureStreamInfo,
    pub identity: VideoNodeIdentity,
    pub transports: HashMap<u32, PipeWireBufferTransport>,
    pub available: VecDeque<NonZeroU32>,
    pub outstanding: VecDeque<OutstandingCapture>,
    pub next_user_data: u64,
    pub source_active: bool,
    pub suspended: bool,
}

/// The contents of an [`ActiveGeneration`].
pub struct GenerationView {
    pub media_generation: NonZeroU64,
    pub stream: CaptureStreamInfo,
    pub identity: IdentityView,
    pub transports: Map<u32, PipeWireBufferTransport>,
    pub available: Seq<NonZeroU32>,
    pub outstanding: Seq<OutstandingCapture>,
    pub next_user_data: u64,
    pub source_active: bool,
    pub suspended: bool,
}

impl View for ActiveGeneration {
    type V = GenerationView;

    open spec fn view(&self) -> GenerationView {
        GenerationView {
            media_generation: self.media_generation,
            stream: self.stream,
            identity: self.identity@,
            transports: self.transports@,
            available: self.available@,
            outstanding: self.outstanding@,
            next_user_data: self.next_user_data,
            source_active: self.source_active,
            suspended: self.suspended,
        }
    }
}

impl GenerationView {
    /// Every buffer that can be queued has a transport, and no more requests
    /// are out than the kernel takes.
    pub open spec fn wf(self) -> bool {
        &&& forall|i: int|
            0 <= i < self.available.len() ==> self.transports.dom().contains(
                (#[trigger] self.available[i])@,
            )
        &&& self.outstanding.len() <= MAX_OUTSTANDING_CAPTURE_REQUESTS
    }
}

/// The refusal of a generation that is not the active one.
pub open spec fn generation_refusal(requested: NonZeroU64, active: NonZeroU64) -> Seq<char> {
    "requested generation "@ + decimal(requested@ as nat) + "; active generation is "@ + decimal(
        active@ as nat,
    )
}

/// [`generation_refusal`] as text.
pub fn refuse_generation(requested: NonZeroU64, active: NonZeroU64) -> (text: String)
    ensures
        text@ == generation_refusal(requested, active),
{
    let mut text = "requested generation ".to_owned();
    push_decimal(&mut text, requested.get());
    text.append("; active generation is ");
    push_decimal(&mut text, active.get());
    text
}

/// A captured stream shows what the requested route shows.
pub open spec fn stream_matches_route(
    stream: CaptureStreamInfo,
    request: MediaStartRequest,
) -> bool {
    &&& stream.crtc_id == request.route.target.0
    &&& stream.width@ == request.route.mode.width
    &&& stream.height@ == request.route.mode.height
}

/// The refusal of a stream that shows something else.
pub open spec fn route_refusal(stream: CaptureStreamInfo, request: MediaStartRequest) -> Seq<char> {
    "kernel stream is CRTC "@ + decimal(stream.crtc_id@ as nat) + " at "@ + decimal(
        stream.width@ as nat,
    ) + "x"@ + decimal(stream.height@ as nat) + "; route is CRTC "@ + decimal(
        request.route.target.0@ as nat,
    ) + " at "@ + decimal(request.route.mode.width as nat) + "x"@ + decimal(
        request.route.mode.height as nat,
    )
}

pub fn validate_stream_route(stream: CaptureStreamInfo, request: MediaStartRequest) -> (result:
    Result<(), KernelDisplayError>)
    ensures
        result is Ok <==> stream_matches_route(stream, request),
        result matches Err(error) ==> error@ == kernel_error(
            "validate CastKMS capture route"@,
            route_refusal(stream, request),
        ),
{
    if stream.crtc_id != request.route.target.as_nonzero() || stream.width.get()
        != request.route.mode.width || stream.height.get() != request.route.mode.height {
        let mut text = "kernel stream is CRTC ".to_owned();
        push_decimal(&mut text, stream.crtc_id.get() as u64);
        text.append(" at ");
        push_decimal(&mut text, stream.width.get() as u64);
        text.append("x");
        push_decimal(&mut text, stream.height.get() as u64);
        text.append("; route is CRTC ");
        push_decimal(&mut text, request.route.target.get() as u64);
        text.append(" at ");
        push_decimal(&mut text, request.route.mode.width as u64);
        text.append("x");
        push_decimal(&mut text, request.route.mode.height as u64);
        return Err(
            KernelDisplayError { operation: "validate CastKMS capture route", message: text },
        );
    }
    Ok(())
}

/// The media type of raw video of a stream.
pub open spec fn video_caps(stream: CaptureStreamInfo) -> Seq<char> {
    "video/x-raw,format=BGRx,width="@ + decimal(stream.width@ as nat) + ",height="@ + decimal(
        stream.height@ as nat,
    ) + ",framerate="@ + decimal(stream.refresh_hz@ as nat) + "/1"@
}

pub fn raw_video_caps(stream: CaptureStreamInfo) -> (caps: String)
    ensures
        caps@ == video_caps(stream),
{
    let mut text = "video/x-raw,format=BGRx,width=".to_owned();
    push_decimal(&mut text, stream.width.get() as u64);
    text.append(",height=");
    push_decimal(&mut text, stream.height.get() as u64);
    text.append(",framerate=");
    push_decimal(&mut text, stream.refresh_hz.get() as u64);
    text.append("/1");
    text
}

pub fn raw_audio_caps() -> (caps: &'static str)
    ensures
        caps@ == "audio/x-raw,format=S16LE,layout=interleaved,rate=48000,channels=2"@,
{
    "audio/x-raw,format=S16LE,layout=interleaved,rate=48000,channels=2"
}

/// Whether an event is of the active generation; one of a later one cannot be.
pub open spec fn tells_current(
    active: NonZeroU64,
    requested: NonZeroU64,
    result: Result<bool, KernelDisplayError>,
) -> bool {
    match result {
        Ok(current) => requested@ <= active@ && current == (requested == active),
        Err(error) => requested@ > active@ && error@ == kernel_error(
            "handle PipeWire source event"@,
            "event generation "@ + decimal(requested@ as nat) + "; active generation is "@
                + decimal(active@ as nat),
        ),
    }
}

/// Whether an event of the source belongs to the active generation.
///
/// Events that were queued before a stop can outlive it; an older generation
/// is safe to discard. A newer one cannot be.
pub fn source_generation_is_current(active: NonZeroU64, requested: NonZeroU64) -> (result: Result<
    bool,
    KernelDisplayError,
>)
    ensures
        tells_current(active, requested, result),
{
    if requested.get() < active.get() {
        Ok(false)
    } else if requested.get() == active.get() {
        Ok(true)
    } else {
        let mut text = "event generation ".to_owned();
        push_decimal(&mut text, requested.get());
        text.append("; active generation is ");
        push_decimal(&mut text, active.get());
        Err(KernelDisplayError { operation: "handle PipeWire source event", message: text })
    }
}

/// One error for a list of failures; none for an empty list.
pub fn combined_kernel_failures(operation: &'static str, failures: Vec<String>) -> (result: Result<
    (),
    KernelDisplayError,
>)
    ensures
        result is Ok <==> failures@.len() == 0,
        result matches Err(error) ==> error@ == kernel_error(
            operation@,
            joined(texts_view(failures@), "; "@),
        ),
{
    if failures.len() == 0 {
        Ok(())
    } else {
        Err(KernelDisplayError { operation, message: join(&failures, "; ") })
    }
}

/// Fail an operation that was cancelled.
pub fn require_not_cancelled(cancelled: bool, operation: &'static str) -> (result: Result<
    (),
    KernelDisplayError,
>)
    ensures
        result is Err <==> cancelled,
        result matches Err(error) ==> error@ == kernel_error(
            operation@,
            "operation was cancelled"@,
        ),
{
    if cancelled {
        Err(KernelDisplayError::new(operation, "operation was cancelled"))
    } else {
        Ok(())
    }
}

/// An event of an earlier generation is stale, and one of a generation that has not
/// begun is a failure.
pub proof fn events_are_of_generations_that_began(
    active: NonZeroU64,
    requested: NonZeroU64,
    result: Result<bool, KernelDisplayError>,
)
    requires
        tells_current(active, requested, result),
    ensures
        result is Err <==> active@ < requested@,
        result is Ok && result->Ok_0 <==> active@ == requested@,
{
}

/// A stream is that of a route if it is on its pipe and has its size.
pub proof fn streams_are_those_of_their_route(stream: CaptureStreamInfo, request: MediaStartRequest)
    ensures
        stream_matches_route(stream, request) <==> stream.crtc_id@ == request.route.target.0@
            && stream.width@ == request.route.mode.width && stream.height@
            == request.route.mode.height,
{
}

/// The format of a stream names its width, its height and its rate, in this order and
/// in decimal digits.
pub proof fn stream_formats_name_size_and_rate(stream: CaptureStreamInfo)
    ensures
        ({
            let caps = video_caps(stream);
            let width = decimal(stream.width@ as nat);
            let height = decimal(stream.height@ as nat);
            let pace = decimal(stream.refresh_hz@ as nat);
            &&& caps.take(30) == "video/x-raw,format=BGRx,width="@
            &&& caps.subrange(30, 30 + width.len() as int) == width
            &&& caps.subrange(30 + width.len() as int, 38 + width.len() as int) == ",height="@
            &&& caps.subrange(
                38 + width.len() as int,
                38 + width.len() as int + height.len() as int,
            ) == height
            &&& caps.skip(38 + width.len() as int + height.len() as int) == ",framerate="@ + pace
                + "/1"@
        }),
{
    reveal_strlit("video/x-raw,format=BGRx,width=");
    reveal_strlit(",height=");
    reveal_strlit(",framerate=");
    reveal_strlit("/1");
    let caps = video_caps(stream);
    let width = decimal(stream.width@ as nat);
    let height = decimal(stream.height@ as nat);
    let pace = decimal(stream.refresh_hz@ as nat);
    assert(caps.take(30) =~= "video/x-raw,format=BGRx,width="@);
    assert(caps.subrange(30, 30 + width.len() as int) =~= width);
    assert(caps.subrange(30 + width.len() as int, 38 + width.len() as int) =~= ",height="@);
    assert(caps.subrange(
        38 + width.len() as int,
        38 + width.len() as int + height.len() as int,
    ) =~= height);
    assert(caps.skip(38 + width.len() as int + height.len() as int) =~= ",framerate="@ + pace
        + "/1"@);
}

/// A node shows all that identifies it, and a generation all that it holds.
pub proof fn generations_show_what_they_hold(generation: ActiveGeneration)
    ensures
        generation@.media_generation == generation.media_generation,
        generation@.stream == generation.stream,
        generation@.identity.node_name == generation.identity.node_name@,
        generation@.identity.object_id == generation.identity.object_id,
        generation@.identity.object_serial == generation.identity.object_serial,
        generation@.identity.media_generation == generation.identity.media_generation,
        generation@.transports == generation.transports@,
        generation@.available == generation.available@,
        generation@.outstanding == generation.outstanding@,
        generation@.next_user_data == generation.next_user_data,
        generation@.source_active == generation.source_active,
        generation@.suspended == generation.suspended,
{
}

/// The text of a refused generation names the one that was asked for, then the one that is
/// active.
pub proof fn refusals_name_both_generations(requested: NonZeroU64, active: NonZeroU64)
    ensures
        ({
            let text = generation_refusal(requested, active);
            let first = decimal(requested@ as nat);
            let second = decimal(active@ as nat);
            &&& text.subrange(21, 21 + first.len() as int) == first
            &&& text.skip(text.len() - second.len()) == second
            &&& text.len() == 44 + first.len() + second.len()
        }),
{
    reveal_strlit("requested generation ");
    reveal_strlit("; active generation is ");
    let text = generation_refusal(requested, active);
    let first = decimal(requested@ as nat);
    let second = decimal(active@ as nat);
    assert(text.subrange(21, 21 + first.len() as int) =~= first);
    assert(text.skip(text.len() - second.len()) =~= second);
}

/// The error about an event that is too new names its generation, then the active one.
pub proof fn early_events_name_both_generations(
    active: NonZeroU64,
    requested: NonZeroU64,
    result: Result<bool, KernelDisplayError>,
)
    requires
        tells_current(active, requested, result),
        result is Err,
    ensures
        ({
            let text = result->Err_0@.message;
            let first = decimal(requested@ as nat);
            let second = decimal(active@ as nat);
            &&& result->Err_0@.operation == "handle PipeWire source event"@
            &&& text.subrange(17, 17 + first.len() as int) == first
            &&& text.skip(text.len() - second.len()) == second
        }),
{
    reveal_strlit("event generation ");
    let text = result->Err_0@.message;
    let first = decimal(requested@ as nat);
    let second = decimal(active@ as nat);
    assert(text.subrange(17, 17 + first.len() as int) =~= first);
    assert(text.skip(text.len() - second.len()) =~= second);
}

/// The text of a foreign stream names its pipe first and the size of the route last.
pub proof fn foreign_streams_name_their_pipe(stream: CaptureStreamInfo, request: MediaStartRequest)
    ensures
        ({
            let text = route_refusal(stream, request);
            let pipe = decimal(stream.crtc_id@ as nat);
            let height = decimal(request.route.mode.height as nat);
            let width = decimal(request.route.mode.width as nat);
            &&& text.subrange(22, 22 + pipe.len() as int) == pipe
            &&& text.skip(text.len() - height.len()) == height
            &&& text.subrange(
                text.len() - height.len() - 1 - width.len(),
                text.len() - height.len() - 1,
            ) == width
        }),
{
    reveal_strlit("kernel stream is CRTC ");
    reveal_strlit("x");
    let text = route_refusal(stream, request);
    let pipe = decimal(stream.crtc_id@ as nat);
    let height = decimal(request.route.mode.height as nat);
    let width = decimal(request.route.mode.width as nat);
    assert(text.subrange(22, 22 + pipe.len() as int) =~= pipe);
    assert(text.skip(text.len() - height.len()) =~= height);
    assert(text.subrange(
        text.len() - height.len() - 1 - width.len(),
        text.len() - height.len() - 1,
    ) =~= width);
}

} // verus!
