//! The order of a generation's start.
//!
//! The audio node is found first, if there is to be audio. Then the kernel
//! stream, its buffer pool, the producer's connection and the video source
//! follow each other, and whatever fails is undone from there.

use crate::castkms_actor::start::{
    allocate_pool, audio_resolver_connected, audio_sink_resolved, check_capabilities,
    describes_target, export_video_buffers, pool_refusal, producer_connected,
    source_config, source_started, start_generation, stream_started, video_node_name,
    AdmittedStart, AudioSink, CastKmsActorConfig, StartFailure, Undo, VideoSourceConfig,
};
use crate::castkms_actor::{
    require_not_cancelled, route_refusal, stream_matches_route, video_caps, ActiveGeneration,
    CaptureStreamInfo, CursorCaptureMode, GenerationView, VideoNodeIdentity, CAPTURE_POOL_SIZE,
};
use crate::device_session_port::DeviceMediaKind;
use crate::display_state::RouteTarget;
use crate::kernel_display_port::{kernel_error, KernelDisplayError, KernelErrorView};
use crate::media_driver::PortOutcome;
use crate::media_pipeline_port::PreparedCaptureMedia;
use crate::nonzero::{nonzero_u32_ext, nonzero_u64_ext, NonZeroU32};
use crate::text::decimal;
use vstd::prelude::*;

verus! {

broadcast use {nonzero_u32_ext, nonzero_u64_ext};

/// What a start waits for, and what it has by then.
#[derive(Debug)]
pub enum StartPhase {
    ConnectingResolver,
    ResolvingSink,
    QueryingCapabilities { audio: Option<AudioSink> },
    StartingStream { audio: Option<AudioSink> },
    Allocating { audio: Option<AudioSink>, stream: CaptureStreamInfo, buffers: Vec<NonZeroU32> },
    ConnectingProducer {
        audio: Option<AudioSink>,
        stream: CaptureStreamInfo,
        buffers: Vec<NonZeroU32>,
    },
    Exporting {
        audio: Option<AudioSink>,
        stream: CaptureStreamInfo,
        buffers: Vec<NonZeroU32>,
        exported: usize,
    },
    StartingSource { audio: Option<AudioSink>, stream: CaptureStreamInfo },
}

/// One start under way.
#[derive(Debug)]
pub struct CaptureStart {
    pub admitted: AdmittedStart,
    pub phase: StartPhase,
}

/// The next outside operation of a start.
#[derive(Debug, PartialEq, Eq)]
pub enum StartAction {
    ConnectResolver,
    ResolveSink { device_path: String, output_index: u32 },
    QueryCapabilities { target: RouteTarget },
    StartStream { cursor_mode: CursorCaptureMode },
    AllocateBuffer,
    ConnectProducer,
    ExportBuffer { stream_id: NonZeroU32, buffer_id: NonZeroU32 },
    StartSource { config: VideoSourceConfig },
}

/// One buffer that the kernel allocated.
#[derive(Debug, Clone, Copy, PartialEq, Eq, Structural)]
pub struct AllocatedBuffer {
    pub stream_id: NonZeroU32,
    pub buffer_id: NonZeroU32,
}

/// The answer to an outside operation.
#[derive(Debug)]
pub enum StartReply {
    /// The resolver's connection, or none if the start was cancelled first.
    Resolver(PortOutcome<()>),
    Sink(PortOutcome<AudioSink>),
    /// The number of buffers that the kernel registers.
    Capabilities(Result<u32, String>),
    Stream(Result<CaptureStreamInfo, String>),
    Buffer(Result<AllocatedBuffer, String>),
    Producer(PortOutcome<()>),
    /// Whether the exported buffer has timelines.
    Exported(Result<bool, String>),
    Source(Result<VideoNodeIdentity, String>),
}

/// How a start goes on.
#[derive(Debug)]
pub enum StartProgress {
    Next { start: CaptureStart, action: StartAction },
    Started { generation: ActiveGeneration, media: PreparedCaptureMedia },
    Failed(StartFailure),
}

impl StartPhase {
    /// The pool is never larger than it should be, and exported in order.
    pub open spec fn wf(self) -> bool {
        match self {
            StartPhase::Allocating { buffers, .. } => buffers@.len() < CAPTURE_POOL_SIZE,
            StartPhase::ConnectingProducer { buffers, .. } => buffers@.len() == CAPTURE_POOL_SIZE,
            StartPhase::Exporting { buffers, exported, .. } => buffers@.len() == CAPTURE_POOL_SIZE
                && exported < buffers@.len(),
            _ => true,
        }
    }

    /// The reply answers what the phase waits for.
    pub open spec fn awaits(self, reply: StartReply) -> bool {
        match self {
            StartPhase::ConnectingResolver => reply is Resolver,
            StartPhase::ResolvingSink => reply is Sink,
            StartPhase::QueryingCapabilities { .. } => reply is Capabilities,
            StartPhase::StartingStream { .. } => reply is Stream,
            StartPhase::Allocating { .. } => reply is Buffer,
            StartPhase::ConnectingProducer { .. } => reply is Producer,
            StartPhase::Exporting { .. } => reply is Exported,
            StartPhase::StartingSource { .. } => reply is Source,
        }
    }

    /// The stream, once the kernel has started it.
    pub open spec fn stream(self) -> Option<CaptureStreamInfo> {
        match self {
            StartPhase::Allocating { stream, .. } => Some(stream),
            StartPhase::ConnectingProducer { stream, .. } => Some(stream),
            StartPhase::Exporting { stream, .. } => Some(stream),
            StartPhase::StartingSource { stream, .. } => Some(stream),
            _ => None,
        }
    }

    /// The audio node, from the kernel's capabilities on.
    pub open spec fn audio(self) -> Option<AudioSink> {
        match self {
            StartPhase::QueryingCapabilities { audio } => audio,
            StartPhase::StartingStream { audio } => audio,
            StartPhase::Allocating { audio, .. } => audio,
            StartPhase::ConnectingProducer { audio, .. } => audio,
            StartPhase::Exporting { audio, .. } => audio,
            StartPhase::StartingSource { audio, .. } => audio,
            _ => None,
        }
    }
}

/// The start failed with the error, and this has to be undone.
pub open spec fn start_fails(progress: StartProgress, error: KernelErrorView, undo: Undo) -> bool {
    progress matches StartProgress::Failed(failure) && failure.error@ == error && failure.undo
        == undo
}

/// A cancelled start is told so.
pub open spec fn start_cancelled(operation: Seq<char>) -> KernelErrorView {
    kernel_error(operation, "operation was cancelled"@)
}

/// The start goes on in this phase with this action.
pub open spec fn start_goes_on(
    before: CaptureStart,
    progress: StartProgress,
    phase: StartPhase,
    action: StartAction,
) -> bool {
    progress == (StartProgress::Next {
        start: CaptureStart { admitted: before.admitted, phase },
        action,
    })
}

/// The kernel's capabilities are asked for.
pub open spec fn queries(
    before: CaptureStart,
    progress: StartProgress,
    audio: Option<AudioSink>,
) -> bool {
    start_goes_on(
        before,
        progress,
        StartPhase::QueryingCapabilities { audio },
        StartAction::QueryCapabilities { target: before.admitted.request.route.target },
    )
}

/// The video source's configuration is that of the start.
pub open spec fn configures_source(
    source: VideoSourceConfig,
    config: CastKmsActorConfig,
    admitted: AdmittedStart,
    stream: CaptureStreamInfo,
) -> bool {
    &&& source.node_name@ == video_node_name(config.session_id@, admitted.media_generation)
    &&& source.node_description == config.node_description
    &&& source.session_id == config.session_id
    &&& source.device_instance == config.device_instance
    &&& source.connector_id == admitted.connector_id
    &&& source.output_index == config.output_index
    &&& source.grant_id == admitted.grant_id
    &&& source.media_generation == admitted.media_generation
    &&& source.refresh_hz == stream.refresh_hz
}

/// A buffer was allocated. The pool is filled before anything else happens.
pub open spec fn allocating_reacts(
    before: CaptureStart,
    reply: Result<AllocatedBuffer, String>,
    cancelled: bool,
    progress: StartProgress,
) -> bool
    recommends
        before.phase is Allocating,
{
    let stream = before.phase->Allocating_stream;
    let buffers = before.phase->Allocating_buffers@;
    match reply {
        Err(text) => start_fails(
            progress,
            kernel_error(
                "allocate CastKMS capture pool"@,
                "buffer "@ + decimal(buffers.len()) + ": "@ + text@,
            ),
            Undo::Stream(stream),
        ),
        Ok(buffer) => if buffer.stream_id != stream.stream_id {
            start_fails(
                progress,
                kernel_error(
                    "allocate CastKMS capture pool"@,
                    "buffer belongs to another stream"@,
                ),
                Undo::Stream(stream),
            )
        } else if buffers.len() + 1 < CAPTURE_POOL_SIZE {
            &&& progress matches StartProgress::Next { start, action }
            &&& action is AllocateBuffer
            &&& start.admitted == before.admitted
            &&& start.phase matches StartPhase::Allocating {
                audio,
                stream: kept,
                buffers: longer,
            }
            &&& audio == before.phase.audio() && kept == stream
            &&& longer@ == buffers.push(buffer.buffer_id)
        } else if cancelled {
            start_fails(
                progress,
                start_cancelled("start capture generation"@),
                Undo::Stream(stream),
            )
        } else {
            &&& progress matches StartProgress::Next { start, action }
            &&& action is ConnectProducer
            &&& start.admitted == before.admitted
            &&& start.phase matches StartPhase::ConnectingProducer {
                audio,
                stream: kept,
                buffers: longer,
            }
            &&& audio == before.phase.audio() && kept == stream
            &&& longer@ == buffers.push(buffer.buffer_id)
        },
    }
}

/// A buffer was exported. The source is started when all are.
pub open spec fn exporting_reacts(
    config: CastKmsActorConfig,
    before: CaptureStart,
    reply: Result<bool, String>,
    progress: StartProgress,
) -> bool
    recommends
        before.phase is Exporting,
{
    let stream = before.phase->Exporting_stream;
    let buffers = before.phase->Exporting_buffers;
    let exported = before.phase->exported;
    match reply {
        Err(text) => start_fails(
            progress,
            kernel_error("export CastKMS capture buffer"@, text@),
            Undo::Stream(stream),
        ),
        Ok(false) => start_fails(
            progress,
            kernel_error(
                "export CastKMS capture buffer"@,
                "explicit buffer has no sync timelines"@,
            ),
            Undo::Stream(stream),
        ),
        Ok(true) => if exported + 1 < buffers@.len() {
            start_goes_on(
                before,
                progress,
                StartPhase::Exporting {
                    audio: before.phase.audio(),
                    stream,
                    buffers,
                    exported: (exported + 1) as usize,
                },
                StartAction::ExportBuffer {
                    stream_id: stream.stream_id,
                    buffer_id: buffers@[exported + 1],
                },
            )
        } else {
            &&& progress matches StartProgress::Next { start, action }
            &&& action matches StartAction::StartSource { config: source }
            &&& configures_source(source, config, before.admitted, stream)
            &&& start == (CaptureStart {
                admitted: before.admitted,
                phase: StartPhase::StartingSource { audio: before.phase.audio(), stream },
            })
        },
    }
}

/// The source was started. One that is not wanted any more, or not the right
/// one, is stopped before the stream is rolled back.
pub open spec fn starting_source_reacts(
    config: CastKmsActorConfig,
    before: CaptureStart,
    reply: Result<VideoNodeIdentity, String>,
    cancelled: bool,
    progress: StartProgress,
) -> bool
    recommends
        before.phase is StartingSource,
{
    let stream = before.phase->StartingSource_stream;
    let media_generation = before.admitted.media_generation;
    match reply {
        Err(text) => start_fails(
            progress,
            kernel_error("start PipeWire source"@, text@),
            Undo::Stream(stream),
        ),
        Ok(identity) => if cancelled {
            start_fails(
                progress,
                start_cancelled("start PipeWire source"@),
                Undo::SourceAndStream { media_generation, stream },
            )
        } else if identity.media_generation != media_generation {
            start_fails(
                progress,
                kernel_error(
                    "start PipeWire source"@,
                    "source returned a stale media generation"@,
                ),
                Undo::SourceAndStream { media_generation, stream },
            )
        } else {
            &&& progress matches StartProgress::Started { generation, media }
            &&& generation@.wf()
            &&& generation@ == (GenerationView {
                media_generation,
                stream,
                identity: identity@,
                transports: Map::empty(),
                available: Seq::empty(),
                outstanding: Seq::empty(),
                next_user_data: 1,
                source_active: true,
                suspended: true,
            })
            &&& media.media_generation == media_generation
            &&& describes_target(media.video_target, &config, before.admitted)
            &&& media.video_target.kind == DeviceMediaKind::Video
            &&& media.video_target.node_name == identity.node_name
            &&& media.video_target.object_serial == identity.object_serial
            &&& media.video_target.caps@ == video_caps(stream)
            &&& media.audio_target is Some <==> before.phase.audio() is Some
            &&& before.phase.audio() matches Some(sink) ==> {
                &&& describes_target(media.audio_target->0, &config, before.admitted)
                &&& media.audio_target->0.kind == DeviceMediaKind::Audio
                &&& media.audio_target->0.node_name == sink.node_name
                &&& media.audio_target->0.object_serial == sink.object_serial
                &&& media.audio_target->0.caps@
                    == "audio/x-raw,format=S16LE,layout=interleaved,rate=48000,channels=2"@
            }
            &&& media.configuration.mode == before.admitted.request.route.mode
            &&& media.configuration.video_profile_id == config.video_profile_id
            &&& media.configuration.audio_profile_id == config.audio_profile_id
            &&& media.configuration.video_bitrate == config.video_bitrate
        },
    }
}

/// How a start goes on after an answer. `cancelled` tells whether it was
/// cancelled by the time the answer was there.
pub open spec fn start_reacts(
    config: CastKmsActorConfig,
    before: CaptureStart,
    reply: StartReply,
    cancelled: bool,
    progress: StartProgress,
) -> bool {
    match (before.phase, reply) {
        (StartPhase::ConnectingResolver, StartReply::Resolver(outcome)) => match outcome {
            PortOutcome::Done(_) => {
                &&& progress matches StartProgress::Next { start, action }
                &&& start == (CaptureStart {
                    admitted: before.admitted,
                    phase: StartPhase::ResolvingSink,
                })
                &&& action == (StartAction::ResolveSink {
                    device_path: config.device_path,
                    output_index: config.output_index,
                })
            },
            PortOutcome::Failed(text) => start_fails(
                progress,
                kernel_error("connect classified PipeWire audio resolver"@, text@),
                Undo::Nothing,
            ),
            PortOutcome::Cancelled => start_fails(
                progress,
                start_cancelled("resolve connector-bound audio sink"@),
                Undo::Nothing,
            ),
        },
        (StartPhase::ResolvingSink, StartReply::Sink(outcome)) => match outcome {
            PortOutcome::Done(sink) => if cancelled {
                start_fails(
                    progress,
                    start_cancelled("start capture generation"@),
                    Undo::Nothing,
                )
            } else {
                queries(before, progress, Some(sink))
            },
            PortOutcome::Failed(text) => start_fails(
                progress,
                kernel_error("resolve connector-bound audio sink"@, text@),
                Undo::Nothing,
            ),
            PortOutcome::Cancelled => start_fails(
                progress,
                start_cancelled("resolve connector-bound audio sink"@),
                Undo::Nothing,
            ),
        },
        (StartPhase::QueryingCapabilities { audio }, StartReply::Capabilities(reply)) =>
            match reply {
            Err(text) => start_fails(
                progress,
                kernel_error("query CastKMS capture capabilities"@, text@),
                Undo::Nothing,
            ),
            Ok(buffers) => if buffers < CAPTURE_POOL_SIZE {
                start_fails(
                    progress,
                    kernel_error("start capture generation"@, pool_refusal(buffers)),
                    Undo::Nothing,
                )
            } else {
                start_goes_on(
                    before,
                    progress,
                    StartPhase::StartingStream { audio },
                    StartAction::StartStream { cursor_mode: CursorCaptureMode::IncludeInFrame },
                )
            },
        },
        (StartPhase::StartingStream { audio }, StartReply::Stream(reply)) => match reply {
            Err(text) => start_fails(
                progress,
                kernel_error("start CastKMS capture"@, text@),
                Undo::Nothing,
            ),
            Ok(stream) => if stream_matches_route(stream, before.admitted.request) {
                &&& progress matches StartProgress::Next { start, action }
                &&& action is AllocateBuffer
                &&& start.admitted == before.admitted
                &&& start.phase matches StartPhase::Allocating { audio: kept, stream: made, buffers }
                &&& kept == audio && made == stream && buffers@.len() == 0
            } else {
                start_fails(
                    progress,
                    kernel_error(
                        "validate CastKMS capture route"@,
                        route_refusal(stream, before.admitted.request),
                    ),
                    Undo::Stream(stream),
                )
            },
        },
        (StartPhase::Allocating { .. }, StartReply::Buffer(reply)) => allocating_reacts(
            before,
            reply,
            cancelled,
            progress,
        ),
        (StartPhase::ConnectingProducer { audio, stream, buffers }, StartReply::Producer(outcome))
            => match outcome {
            PortOutcome::Done(_) => start_goes_on(
                before,
                progress,
                StartPhase::Exporting { audio, stream, buffers, exported: 0 },
                StartAction::ExportBuffer { stream_id: stream.stream_id, buffer_id: buffers@[0] },
            ),
            PortOutcome::Failed(text) => start_fails(
                progress,
                kernel_error("connect classified PipeWire producer"@, text@),
                Undo::Stream(stream),
            ),
            PortOutcome::Cancelled => start_fails(
                progress,
                start_cancelled("start capture generation"@),
                Undo::Stream(stream),
            ),
        },
        (StartPhase::Exporting { .. }, StartReply::Exported(reply)) => exporting_reacts(
            config,
            before,
            reply,
            progress,
        ),
        (StartPhase::StartingSource { .. }, StartReply::Source(reply)) => starting_source_reacts(
            config,
            before,
            reply,
            cancelled,
            progress,
        ),
        _ => true,
    }
}

fn start_failed(error: KernelDisplayError) -> (progress: StartProgress)
    ensures
        start_fails(progress, error@, Undo::Nothing),
{
    StartProgress::Failed(StartFailure { error, undo: Undo::Nothing })
}

impl CaptureStart {
    /// Begin an admitted start.
    pub fn begin(config: &CastKmsActorConfig, admitted: AdmittedStart) -> (begun: (
        Self,
        StartAction,
    ))
        ensures
            begun.0.admitted == admitted,
            begun.0.phase.wf(),
            match config.audio_profile_id {
                Some(_) => begun.0.phase is ConnectingResolver && begun.1 is ConnectResolver,
                None => begun.0.phase == (StartPhase::QueryingCapabilities { audio: None })
                    && begun.1 == (StartAction::QueryCapabilities {
                    target: admitted.request.route.target,
                }),
            },
    {
        if config.audio_profile_id.is_some() {
            (
                CaptureStart { admitted, phase: StartPhase::ConnectingResolver },
                StartAction::ConnectResolver,
            )
        } else {
            (
                CaptureStart { admitted, phase: StartPhase::QueryingCapabilities { audio: None } },
                StartAction::QueryCapabilities { target: admitted.request.route.target },
            )
        }
    }

    fn next(admitted: AdmittedStart, phase: StartPhase, action: StartAction) -> (progress:
        StartProgress)
        ensures
            progress == (StartProgress::Next { start: CaptureStart { admitted, phase }, action }),
    {
        StartProgress::Next { start: CaptureStart { admitted, phase }, action }
    }

    /// Whether the reply answers what the start waits for.
    pub fn takes(&self, reply: &StartReply) -> (takes: bool)
        ensures
            takes == self.phase.awaits(*reply),
    {
        match &self.phase {
            StartPhase::ConnectingResolver => matches!(reply, StartReply::Resolver(_)),
            StartPhase::ResolvingSink => matches!(reply, StartReply::Sink(_)),
            StartPhase::QueryingCapabilities { .. } => matches!(reply, StartReply::Capabilities(_)),
            StartPhase::StartingStream { .. } => matches!(reply, StartReply::Stream(_)),
            StartPhase::Allocating { .. } => matches!(reply, StartReply::Buffer(_)),
            StartPhase::ConnectingProducer { .. } => matches!(reply, StartReply::Producer(_)),
            StartPhase::Exporting { .. } => matches!(reply, StartReply::Exported(_)),
            StartPhase::StartingSource { .. } => matches!(reply, StartReply::Source(_)),
        }
    }

    /// Go on after an answer.
    pub fn proceed(self, config: &CastKmsActorConfig, reply: StartReply, cancelled: bool) -> (progress:
        StartProgress)
        requires
            self.phase.wf(),
            self.phase.awaits(reply),
        ensures
            start_reacts(*config, self, reply, cancelled, progress),
            progress matches StartProgress::Next { start, .. } ==> start.phase.wf(),
    {
        let ghost before = self;
        let admitted = self.admitted;
        match (self.phase, reply) {
            (StartPhase::ConnectingResolver, StartReply::Resolver(outcome)) => {
                match audio_resolver_connected(outcome) {
                    Err(error) => start_failed(error),
                    Ok(()) => CaptureStart::next(
                        admitted,
                        StartPhase::ResolvingSink,
                        StartAction::ResolveSink {
                            device_path: config.device_path.clone(),
                            output_index: config.output_index,
                        },
                    ),
                }
            },
            (StartPhase::ResolvingSink, StartReply::Sink(outcome)) => {
                let sink = match audio_sink_resolved(outcome) {
                    Err(error) => {
                        return start_failed(error);
                    },
                    Ok(sink) => sink,
                };
                match require_not_cancelled(cancelled, "start capture generation") {
                    Err(error) => start_failed(error),
                    Ok(()) => CaptureStart::next(
                        admitted,
                        StartPhase::QueryingCapabilities { audio: Some(sink) },
                        StartAction::QueryCapabilities { target: admitted.request.route.target },
                    ),
                }
            },
            (StartPhase::QueryingCapabilities { audio }, StartReply::Capabilities(reply)) => {
                match check_capabilities(reply) {
                    Err(error) => start_failed(error),
                    Ok(()) => CaptureStart::next(
                        admitted,
                        StartPhase::StartingStream { audio },
                        StartAction::StartStream { cursor_mode: CursorCaptureMode::IncludeInFrame },
                    ),
                }
            },
            (StartPhase::StartingStream { audio }, StartReply::Stream(reply)) => {
                match stream_started(admitted, reply) {
                    Err(failure) => StartProgress::Failed(failure),
                    Ok(stream) => CaptureStart::next(
                        admitted,
                        StartPhase::Allocating { audio, stream, buffers: Vec::new() },
                        StartAction::AllocateBuffer,
                    ),
                }
            },
            (StartPhase::Allocating { audio, stream, buffers }, StartReply::Buffer(reply)) => {
                CaptureStart::allocated(admitted, audio, stream, buffers, reply, cancelled)
            },
            (
                StartPhase::ConnectingProducer { audio, stream, buffers },
                StartReply::Producer(outcome),
            ) => {
                match producer_connected(stream, outcome) {
                    Err(failure) => StartProgress::Failed(failure),
                    Ok(()) => {
                        let first = buffers[0];
                        CaptureStart::next(
                            admitted,
                            StartPhase::Exporting { audio, stream, buffers, exported: 0 },
                            StartAction::ExportBuffer {
                                stream_id: stream.stream_id,
                                buffer_id: first,
                            },
                        )
                    },
                }
            },
            (
                StartPhase::Exporting { audio, stream, buffers, exported },
                StartReply::Exported(reply),
            ) => {
                match export_video_buffers(stream, reply) {
                    Err(failure) => StartProgress::Failed(failure),
                    Ok(()) => {
                        if exported + 1 < buffers.len() {
                            let following = buffers[exported + 1];
                            CaptureStart::next(
                                admitted,
                                StartPhase::Exporting {
                                    audio,
                                    stream,
                                    buffers,
                                    exported: exported + 1,
                                },
                                StartAction::ExportBuffer {
                                    stream_id: stream.stream_id,
                                    buffer_id: following,
                                },
                            )
                        } else {
                            CaptureStart::next(
                                admitted,
                                StartPhase::StartingSource { audio, stream },
                                StartAction::StartSource {
                                    config: source_config(config, admitted, stream),
                                },
                            )
                        }
                    },
                }
            },
            (StartPhase::StartingSource { audio, stream }, StartReply::Source(reply)) => {
                match source_started(admitted, stream, reply, cancelled) {
                    Err(failure) => StartProgress::Failed(failure),
                    Ok(identity) => {
                        let (generation, media) = start_generation(
                            config,
                            admitted,
                            stream,
                            identity,
                            audio,
                        );
                        StartProgress::Started { generation, media }
                    },
                }
            },
            _ => {
                proof {
                    assert(!before.phase.awaits(reply));
                }
                start_failed(
                    KernelDisplayError::new("start capture generation", "unexpected answer"),
                )
            },
        }
    }

    fn allocated(
        admitted: AdmittedStart,
        audio: Option<AudioSink>,
        stream: CaptureStreamInfo,
        buffers: Vec<NonZeroU32>,
        reply: Result<AllocatedBuffer, String>,
        cancelled: bool,
    ) -> (progress: StartProgress)
        requires
            buffers@.len() < CAPTURE_POOL_SIZE,
        ensures
            allocating_reacts(
                (CaptureStart {
                    admitted,
                    phase: StartPhase::Allocating { audio, stream, buffers },
                }),
                reply,
                cancelled,
                progress,
            ),
            progress matches StartProgress::Next { start, .. } ==> start.phase.wf(),
    {
        let mut buffers = buffers;
        let index: u32 = buffers.len() as u32;
        let owner = match &reply {
            Ok(buffer) => Ok(buffer.stream_id),
            Err(text) => Err(text.clone()),
        };
        if let Err(failure) = allocate_pool(index, stream, owner) {
            return StartProgress::Failed(failure);
        }
        if let Ok(buffer) = reply {
            buffers.push(buffer.buffer_id);
        }
        if index + 1 < CAPTURE_POOL_SIZE {
            return CaptureStart::next(
                admitted,
                StartPhase::Allocating { audio, stream, buffers },
                StartAction::AllocateBuffer,
            );
        }
        match require_not_cancelled(cancelled, "start capture generation") {
            Err(error) => StartProgress::Failed(StartFailure { error, undo: Undo::Stream(stream) }),
            Ok(()) => CaptureStart::next(
                admitted,
                StartPhase::ConnectingProducer { audio, stream, buffers },
                StartAction::ConnectProducer,
            ),
        }
    }
}

/// The number of operations that are left, at most.
pub open spec fn operations_left(phase: StartPhase) -> nat {
    let pool = CAPTURE_POOL_SIZE as nat;
    match phase {
        StartPhase::ConnectingResolver => 2 * pool + 6,
        StartPhase::ResolvingSink => 2 * pool + 5,
        StartPhase::QueryingCapabilities { .. } => 2 * pool + 4,
        StartPhase::StartingStream { .. } => 2 * pool + 3,
        StartPhase::Allocating { buffers, .. } => (2 * pool + 2 - buffers@.len()) as nat,
        StartPhase::ConnectingProducer { .. } => pool + 2,
        StartPhase::Exporting { exported, .. } => (pool + 1 - exported) as nat,
        StartPhase::StartingSource { .. } => 1,
    }
}

/// A start comes to an end. It keeps its request, its stream and its audio
/// node, and a generation that is started is the one that was asked for.
pub proof fn starts_come_to_an_end(
    config: CastKmsActorConfig,
    before: CaptureStart,
    reply: StartReply,
    cancelled: bool,
    progress: StartProgress,
)
    requires
        before.phase.wf(),
        before.phase.awaits(reply),
        start_reacts(config, before, reply, cancelled, progress),
    ensures
        match progress {
            StartProgress::Next { start, .. } => {
                &&& operations_left(start.phase) < operations_left(before.phase)
                &&& start.admitted == before.admitted
                &&& before.phase.stream() is Some ==> start.phase.stream() == before.phase.stream()
                &&& before.phase.audio() is Some ==> start.phase.audio() == before.phase.audio()
            },
            StartProgress::Started { generation, media } => {
                &&& before.phase.stream() == Some(generation@.stream)
                &&& generation@.media_generation == before.admitted.media_generation
                &&& media.media_generation == before.admitted.media_generation
            },
            StartProgress::Failed(_) => true,
        },
{
}

/// A failed start undoes exactly what it made: the stream from the moment it
/// exists, and the source if that was started.
pub proof fn failed_starts_undo_what_they_made(
    config: CastKmsActorConfig,
    before: CaptureStart,
    reply: StartReply,
    cancelled: bool,
    progress: StartProgress,
)
    requires
        before.phase.awaits(reply),
        start_reacts(config, before, reply, cancelled, progress),
        progress is Failed,
    ensures
        progress->Failed_0.undo == (match (before.phase, reply) {
            (StartPhase::StartingStream { .. }, StartReply::Stream(Ok(stream))) => Undo::Stream(
                stream,
            ),
            (StartPhase::StartingSource { stream, .. }, StartReply::Source(Ok(_))) =>
                Undo::SourceAndStream { media_generation: before.admitted.media_generation, stream },
            _ => match before.phase.stream() {
                Some(stream) => Undo::Stream(stream),
                None => Undo::Nothing,
            },
        }),
{
}

/// A start resolves its sound first, if it has any; then it asks what the kernel can
/// capture from the pipe of its route, starts a stream with the cursor in the picture,
/// allocates four buffers, connects, exports each buffer in turn, and starts the source.
pub proof fn starts_go_in_order(
    config: CastKmsActorConfig,
    before: CaptureStart,
    reply: StartReply,
    cancelled: bool,
    progress: StartProgress,
)
    requires
        before.phase.wf(),
        before.phase.awaits(reply),
        start_reacts(config, before, reply, cancelled, progress),
    ensures
        progress is Next ==> match before.phase {
            StartPhase::ConnectingResolver => progress->action == (StartAction::ResolveSink {
                device_path: config.device_path,
                output_index: config.output_index,
            }),
            StartPhase::ResolvingSink => progress->action == (StartAction::QueryCapabilities {
                target: before.admitted.request.route.target,
            }) && progress->start.phase.audio() == Some(reply->Sink_0->Done_0),
            StartPhase::QueryingCapabilities { .. } => progress->action is StartStream
                && progress->action->cursor_mode is IncludeInFrame && reply->Capabilities_0->Ok_0
                >= 4,
            StartPhase::StartingStream { .. } => progress->action is AllocateBuffer
                && progress->start.phase.stream() == Some(reply->Stream_0->Ok_0),
            StartPhase::Allocating { buffers, .. } => if buffers@.len() == 3 {
                progress->action is ConnectProducer && progress->start.phase is ConnectingProducer
            } else {
                progress->action is AllocateBuffer && progress->start.phase is Allocating
            },
            StartPhase::ConnectingProducer { stream, buffers, .. } => progress->action == (
            StartAction::ExportBuffer { stream_id: stream.stream_id, buffer_id: buffers@[0] }),
            StartPhase::Exporting { stream, buffers, exported, .. } => if exported == 3 {
                progress->action is StartSource && progress->start.phase is StartingSource
            } else {
                progress->action == (StartAction::ExportBuffer {
                    stream_id: stream.stream_id,
                    buffer_id: buffers@[exported + 1],
                })
            },
            StartPhase::StartingSource { .. } => false,
        },
        progress is Started <==> before.phase is StartingSource && !cancelled && reply->Source_0
            is Ok && reply->Source_0->Ok_0.media_generation == before.admitted.media_generation,
{
}

/// Buffers are kept in the order in which they were allocated, all of them of the
/// stream of the start.
pub proof fn allocated_buffers_are_kept(
    config: CastKmsActorConfig,
    before: CaptureStart,
    reply: StartReply,
    cancelled: bool,
    progress: StartProgress,
)
    requires
        before.phase.wf(),
        before.phase is Allocating,
        reply is Buffer,
        start_reacts(config, before, reply, cancelled, progress),
    ensures
        progress is Next ==> ({
            let held = before.phase->Allocating_buffers@;
            let longer = if progress->start.phase is Allocating {
                progress->start.phase->Allocating_buffers@
            } else {
                progress->start.phase->ConnectingProducer_buffers@
            };
            &&& reply->Buffer_0 is Ok
            &&& reply->Buffer_0->Ok_0.stream_id == before.phase->Allocating_stream.stream_id
            &&& longer.len() == held.len() + 1
            &&& longer.last() == reply->Buffer_0->Ok_0.buffer_id
            &&& forall|i: int| 0 <= i < held.len() ==> #[trigger] longer[i] == held[i]
        }),
        reply->Buffer_0 is Ok && reply->Buffer_0->Ok_0.stream_id
            == before.phase->Allocating_stream.stream_id && !cancelled ==> progress is Next,
        reply->Buffer_0 is Err ==> progress is Failed,
{
}

/// A started generation is the one that was admitted, on the stream and the node that
/// were made for it, with nothing queued, and with sound as it was resolved.
pub proof fn started_captures_are_as_admitted(
    config: CastKmsActorConfig,
    before: CaptureStart,
    reply: StartReply,
    cancelled: bool,
    progress: StartProgress,
)
    requires
        before.phase is StartingSource,
        reply is Source,
        start_reacts(config, before, reply, cancelled, progress),
        progress is Started,
    ensures
        ({
            let generation = progress->generation@;
            let media = progress->media;
            let node = reply->Source_0->Ok_0;
            &&& generation.media_generation == before.admitted.media_generation
            &&& generation.stream == before.phase->StartingSource_stream
            &&& generation.identity == node@
            &&& generation.available.len() == 0
            &&& generation.outstanding.len() == 0
            &&& generation.next_user_data == 1
            &&& generation.suspended
            &&& generation.source_active
            &&& media.media_generation == before.admitted.media_generation
            &&& media.configuration.mode == before.admitted.request.route.mode
            &&& media.configuration.video_bitrate == config.video_bitrate
            &&& media.configuration.video_profile_id == config.video_profile_id
            &&& media.configuration.audio_profile_id == config.audio_profile_id
            &&& media.video_target.node_name == node.node_name
            &&& media.video_target.object_serial == node.object_serial
            &&& media.video_target.kind is Video
            &&& media.video_target.connector_id == before.admitted.connector_id
            &&& media.audio_target is Some <==> before.phase->StartingSource_audio is Some
            &&& media.audio_target is Some ==> media.audio_target->0.kind is Audio
                && media.audio_target->0.node_name
                == before.phase->StartingSource_audio->0.node_name
                && media.audio_target->0.object_serial
                == before.phase->StartingSource_audio->0.object_serial
        }),
{
}

/// The source is started for the generation that was admitted: on its connector and under its
/// grant, for the display of the owner, at the rate of the stream.
pub proof fn sources_are_started_for_their_generation(
    config: CastKmsActorConfig,
    before: CaptureStart,
    reply: StartReply,
    cancelled: bool,
    progress: StartProgress,
)
    requires
        before.phase is Exporting,
        reply is Exported,
        start_reacts(config, before, reply, cancelled, progress),
        progress is Next,
        progress->action is StartSource,
    ensures
        ({
            let source = progress->action->config;
            let stream = before.phase->Exporting_stream;
            &&& source.connector_id == before.admitted.connector_id
            &&& source.grant_id == before.admitted.grant_id
            &&& source.media_generation == before.admitted.media_generation
            &&& source.session_id == config.session_id
            &&& source.device_instance == config.device_instance
            &&& source.node_description == config.node_description
            &&& source.output_index == config.output_index
            &&& source.refresh_hz == stream.refresh_hz
            &&& source.node_name@.subrange(12, 12 + config.session_id@.len() as int)
                == config.session_id@
            &&& source.node_name@.skip(13 + config.session_id@.len() as int) == decimal(
                before.admitted.media_generation@ as nat,
            )
            &&& progress->start.phase.stream() == Some(stream)
            &&& progress->start.phase.audio() == before.phase.audio()
        }),
{
    reveal_strlit("pronk.video.");
    reveal_strlit(".");
    let name = progress->action->config.node_name@;
    assert(name.subrange(12, 12 + config.session_id@.len() as int) =~= config.session_id@);
    assert(name.skip(13 + config.session_id@.len() as int) =~= decimal(
        before.admitted.media_generation@ as nat,
    ));
}

/// A start that failed says at what, with the reason that was given.
pub proof fn failed_starts_say_at_what(
    config: CastKmsActorConfig,
    before: CaptureStart,
    reply: StartReply,
    progress: StartProgress,
)
    requires
        before.phase.wf(),
        before.phase.awaits(reply),
        start_reacts(config, before, reply, false, progress),
    ensures
        reply matches StartReply::Resolver(PortOutcome::Failed(text)) ==> progress is Failed
            && progress->Failed_0.error@ == kernel_error(
            "connect classified PipeWire audio resolver"@,
            text@,
        ),
        reply matches StartReply::Sink(PortOutcome::Failed(text)) ==> progress is Failed
            && progress->Failed_0.error@ == kernel_error(
            "resolve connector-bound audio sink"@,
            text@,
        ),
        reply matches StartReply::Capabilities(Err(text)) ==> progress is Failed
            && progress->Failed_0.error@ == kernel_error(
            "query CastKMS capture capabilities"@,
            text@,
        ),
        reply matches StartReply::Stream(Err(text)) ==> progress is Failed
            && progress->Failed_0.error@ == kernel_error("start CastKMS capture"@, text@),
        reply matches StartReply::Producer(PortOutcome::Failed(text)) ==> progress is Failed
            && progress->Failed_0.error@ == kernel_error(
            "connect classified PipeWire producer"@,
            text@,
        ),
        reply matches StartReply::Exported(Err(text)) ==> progress is Failed
            && progress->Failed_0.error@ == kernel_error("export CastKMS capture buffer"@, text@),
        reply matches StartReply::Source(Err(text)) ==> progress is Failed
            && progress->Failed_0.error@ == kernel_error("start PipeWire source"@, text@),
        reply matches StartReply::Buffer(Err(text)) ==> progress is Failed
            && progress->Failed_0.error@.operation == "allocate CastKMS capture pool"@
            && progress->Failed_0.error@.message.skip(
            progress->Failed_0.error@.message.len() - text@.len(),
        ) == text@,
{
    match reply {
        StartReply::Buffer(Err(text)) => {
            let message = progress->Failed_0.error@.message;
            assert(message.skip(message.len() - text@.len()) =~= text@);
        },
        _ => {},
    }
}

} // verus!
