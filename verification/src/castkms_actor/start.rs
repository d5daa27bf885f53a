//! The start of one capture generation.
//!
//! A start goes through the kernel and the video source in a fixed order. Each
//! step takes what the outside replied; a step that fails says what has to be
//! undone before the failure is reported.

use crate::castkms_actor::stop::SourceStop;
use crate::castkms_actor::{
    raw_audio_caps, raw_video_caps, require_not_cancelled, route_refusal, stream_matches_route,
    validate_stream_route, video_caps, ActiveGeneration, CaptureStreamInfo, GenerationView,
    VideoNodeIdentity, CAPTURE_POOL_SIZE,
};
use crate::device_session_port::{DeviceMediaConfiguration, DeviceMediaKind, DeviceMediaTarget};
use crate::kernel_display_port::{kernel_error, KernelDisplayError, KernelErrorView};
use crate::media_driver::PortOutcome;
use crate::media_pipeline_port::PreparedCaptureMedia;
use crate::media_session::MediaStartRequest;
use crate::nonzero::{nonzero_u32_ext, nonzero_u64_ext, NonZeroU32, NonZeroU64};
use crate::protocol::clone_text;
use crate::text::{concat, decimal, push_decimal};
use std::collections::{HashMap, VecDeque};
use vstd::prelude::*;
use vstd::string::*;

verus! {

broadcast use {nonzero_u32_ext, nonzero_u64_ext};

/// Identity and policy of one display's capture.
#[derive(Debug, PartialEq, Eq)]
pub struct CastKmsActorConfig {
    pub session_id: String,
    pub device_instance: String,
    pub node_description: String,
    pub device_path: String,
    pub output_index: u32,
    pub video_profile_id: String,
    pub audio_profile_id: Option<String>,
    pub video_bitrate: NonZeroU64,
    pub device_control: bool,
}

/// What has to be undone before a failed start is reported.
#[derive(Debug, Clone, Copy, PartialEq, Eq, Structural)]
pub enum Undo {
    Nothing,
    Stream(CaptureStreamInfo),
    SourceAndStream { media_generation: NonZeroU64, stream: CaptureStreamInfo },
}

/// A start that failed.
#[derive(Debug, PartialEq, Eq)]
pub struct StartFailure {
    pub error: KernelDisplayError,
    pub undo: Undo,
}

/// The start failed with the error, and `undo` has to be done.
pub open spec fn fails_with<T>(
    result: Result<T, StartFailure>,
    error: KernelErrorView,
    undo: Undo,
) -> bool {
    result is Err && result->Err_0.error@ == error && result->Err_0.undo == undo
}

/// A request that may go to the kernel.
#[derive(Debug, Clone, Copy, PartialEq, Eq, Structural)]
pub struct AdmittedStart {
    pub request: MediaStartRequest,
    pub media_generation: NonZeroU64,
    pub connector_id: NonZeroU32,
    pub grant_id: NonZeroU32,
}

/// Why a request may not go to the kernel, if so.
pub open spec fn start_refusal(
    active: bool,
    request: MediaStartRequest,
    connector_id: u32,
    grant_id: u32,
    cancelled: bool,
) -> Option<Seq<char>> {
    if active {
        Some("another media generation is still active"@)
    } else if request.media_generation == 0 {
        Some("media generation is zero"@)
    } else if connector_id == 0 {
        Some("CastKMS connector ID is zero"@)
    } else if grant_id == 0 {
        Some("CastKMS grant ID is zero"@)
    } else if cancelled {
        Some("operation was cancelled"@)
    } else {
        None
    }
}

/// How a generation was asked for.
pub open spec fn start_admitted(
    active: bool,
    request: MediaStartRequest,
    connector_id: u32,
    grant_id: u32,
    cancelled: bool,
    result: Result<AdmittedStart, KernelDisplayError>,
) -> bool {
    match start_refusal(active, request, connector_id, grant_id, cancelled) {
        Some(refusal) => result is Err && result->Err_0@ == kernel_error(
            "start capture generation"@,
            refusal,
        ),
        None => {
            &&& result is Ok
            &&& result->Ok_0.request == request
            &&& result->Ok_0.media_generation@ == request.media_generation
            &&& result->Ok_0.connector_id@ == connector_id
            &&& result->Ok_0.grant_id@ == grant_id
        },
    }
}

pub fn admit_start(
    active: bool,
    request: MediaStartRequest,
    connector_id: u32,
    grant_id: u32,
    cancelled: bool,
) -> (result: Result<AdmittedStart, KernelDisplayError>)
    ensures
        start_admitted(active, request, connector_id, grant_id, cancelled, result),
{
    let operation = "start capture generation";
    if active {
        return Err(KernelDisplayError::new(operation, "another media generation is still active"));
    }
    let media_generation = match NonZeroU64::new(request.media_generation) {
        Some(generation) => generation,
        None => {
            return Err(KernelDisplayError::new(operation, "media generation is zero"));
        },
    };
    let connector_id = match NonZeroU32::new(connector_id) {
        Some(id) => id,
        None => {
            return Err(KernelDisplayError::new(operation, "CastKMS connector ID is zero"));
        },
    };
    let grant_id = match NonZeroU32::new(grant_id) {
        Some(id) => id,
        None => {
            return Err(KernelDisplayError::new(operation, "CastKMS grant ID is zero"));
        },
    };
    match require_not_cancelled(cancelled, operation) {
        Err(error) => Err(error),
        Ok(()) => Ok(AdmittedStart { request, media_generation, connector_id, grant_id }),
    }
}

/// The audio node that belongs to a connector.
#[derive(Debug, PartialEq, Eq)]
pub struct AudioSink {
    pub node_name: String,
    pub object_serial: NonZeroU64,
}

/// Take in the connection that the audio node is to be looked up with.
pub fn audio_resolver_connected(outcome: PortOutcome<()>) -> (result: Result<
    (),
    KernelDisplayError,
>)
    ensures
        match outcome {
            PortOutcome::Done(_) => result is Ok,
            PortOutcome::Failed(text) => result is Err && result->Err_0@ == kernel_error(
                "connect classified PipeWire audio resolver"@,
                text@,
            ),
            PortOutcome::Cancelled => result is Err && result->Err_0@ == kernel_error(
                "resolve connector-bound audio sink"@,
                "operation was cancelled"@,
            ),
        },
{
    match outcome {
        PortOutcome::Done(()) => Ok(()),
        PortOutcome::Failed(text) => Err(
            KernelDisplayError {
                operation: "connect classified PipeWire audio resolver",
                message: text,
            },
        ),
        PortOutcome::Cancelled => Err(
            KernelDisplayError::new(
                "resolve connector-bound audio sink",
                "operation was cancelled",
            ),
        ),
    }
}

/// Take in the audio node that was looked up.
pub fn audio_sink_resolved(outcome: PortOutcome<AudioSink>) -> (result: Result<
    AudioSink,
    KernelDisplayError,
>)
    ensures
        match outcome {
            PortOutcome::Done(sink) => result == Ok::<_, KernelDisplayError>(sink),
            PortOutcome::Failed(text) => result is Err && result->Err_0@ == kernel_error(
                "resolve connector-bound audio sink"@,
                text@,
            ),
            PortOutcome::Cancelled => result is Err && result->Err_0@ == kernel_error(
                "resolve connector-bound audio sink"@,
                "operation was cancelled"@,
            ),
        },
{
    match outcome {
        PortOutcome::Done(sink) => Ok(sink),
        PortOutcome::Failed(text) => Err(
            KernelDisplayError { operation: "resolve connector-bound audio sink", message: text },
        ),
        PortOutcome::Cancelled => Err(
            KernelDisplayError::new(
                "resolve connector-bound audio sink",
                "operation was cancelled",
            ),
        ),
    }
}

/// The refusal of a kernel with too small a pool.
pub open spec fn pool_refusal(buffers: u32) -> Seq<char> {
    "CastKMS supports "@ + decimal(buffers as nat) + " buffers; "@ + decimal(
        CAPTURE_POOL_SIZE as nat,
    ) + " are required"@
}

/// Whether the kernel has room for the pool.
pub open spec fn capabilities_checked(
    reply: Result<u32, String>,
    result: Result<(), KernelDisplayError>,
) -> bool {
    match reply {
        Err(text) => result is Err && result->Err_0@ == kernel_error(
            "query CastKMS capture capabilities"@,
            text@,
        ),
        Ok(buffers) => if buffers < CAPTURE_POOL_SIZE {
            result is Err && result->Err_0@ == kernel_error(
                "start capture generation"@,
                pool_refusal(buffers),
            )
        } else {
            result is Ok
        },
    }
}

/// Check the number of buffers that the kernel offers.
pub fn check_capabilities(reply: Result<u32, String>) -> (result: Result<(), KernelDisplayError>)
    ensures
        capabilities_checked(reply, result),
{
    match reply {
        Err(text) => Err(
            KernelDisplayError { operation: "query CastKMS capture capabilities", message: text },
        ),
        Ok(buffers) => {
            if buffers < CAPTURE_POOL_SIZE {
                let mut text = "CastKMS supports ".to_owned();
                push_decimal(&mut text, buffers as u64);
                text.append(" buffers; ");
                push_decimal(&mut text, CAPTURE_POOL_SIZE as u64);
                text.append(" are required");
                return Err(
                    KernelDisplayError { operation: "start capture generation", message: text },
                );
            }
            Ok(())
        },
    }
}

/// How the start of the stream was taken in.
pub open spec fn stream_checked(
    admitted: AdmittedStart,
    reply: Result<CaptureStreamInfo, String>,
    result: Result<CaptureStreamInfo, StartFailure>,
) -> bool {
    match reply {
        Err(text) => fails_with(
            result,
            kernel_error("start CastKMS capture"@, text@),
            Undo::Nothing,
        ),
        Ok(stream) => if stream_matches_route(stream, admitted.request) {
            result == Ok::<_, StartFailure>(stream)
        } else {
            fails_with(
                result,
                kernel_error(
                    "validate CastKMS capture route"@,
                    route_refusal(stream, admitted.request),
                ),
                Undo::Stream(stream),
            )
        },
    }
}

/// Take in the stream that the kernel started.
pub fn stream_started(admitted: AdmittedStart, reply: Result<CaptureStreamInfo, String>) -> (result:
    Result<CaptureStreamInfo, StartFailure>)
    ensures
        stream_checked(admitted, reply, result),
{
    match reply {
        Err(text) => Err(
            StartFailure {
                error: KernelDisplayError { operation: "start CastKMS capture", message: text },
                undo: Undo::Nothing,
            },
        ),
        Ok(stream) => match validate_stream_route(stream, admitted.request) {
            Ok(()) => Ok(stream),
            Err(error) => Err(StartFailure { error, undo: Undo::Stream(stream) }),
        },
    }
}

/// How the allocation of a buffer was taken in.
pub open spec fn buffer_allocated(
    index: u32,
    stream: CaptureStreamInfo,
    reply: Result<NonZeroU32, String>,
    result: Result<(), StartFailure>,
) -> bool {
    match reply {
        Err(text) => fails_with(
            result,
            kernel_error(
                "allocate CastKMS capture pool"@,
                "buffer "@ + decimal(index as nat) + ": "@ + text@,
            ),
            Undo::Stream(stream),
        ),
        Ok(owner) => if owner == stream.stream_id {
            result is Ok
        } else {
            fails_with(
                result,
                kernel_error(
                    "allocate CastKMS capture pool"@,
                    "buffer belongs to another stream"@,
                ),
                Undo::Stream(stream),
            )
        },
    }
}

/// Take in one buffer of the pool, as the stream that it belongs to.
pub fn allocate_pool(
    index: u32,
    stream: CaptureStreamInfo,
    reply: Result<NonZeroU32, String>,
) -> (result: Result<(), StartFailure>)
    ensures
        buffer_allocated(index, stream, reply, result),
{
    match reply {
        Err(text) => {
            let mut message = "buffer ".to_owned();
            push_decimal(&mut message, index as u64);
            message.append(": ");
            message.append(text.as_str());
            Err(
                StartFailure {
                    error: KernelDisplayError {
                        operation: "allocate CastKMS capture pool",
                        message,
                    },
                    undo: Undo::Stream(stream),
                },
            )
        },
        Ok(owner) => if owner != stream.stream_id {
            Err(
                StartFailure {
                    error: KernelDisplayError::new(
                        "allocate CastKMS capture pool",
                        "buffer belongs to another stream",
                    ),
                    undo: Undo::Stream(stream),
                },
            )
        } else {
            Ok(())
        },
    }
}

/// Take in the producer's connection to the media graph.
pub fn producer_connected(stream: CaptureStreamInfo, outcome: PortOutcome<()>) -> (result: Result<
    (),
    StartFailure,
>)
    ensures
        match outcome {
            PortOutcome::Done(_) => result is Ok,
            PortOutcome::Failed(text) => fails_with(
                result,
                kernel_error("connect classified PipeWire producer"@, text@),
                Undo::Stream(stream),
            ),
            PortOutcome::Cancelled => fails_with(
                result,
                kernel_error("start capture generation"@, "operation was cancelled"@),
                Undo::Stream(stream),
            ),
        },
{
    match outcome {
        PortOutcome::Done(()) => Ok(()),
        PortOutcome::Failed(text) => Err(
            StartFailure {
                error: KernelDisplayError {
                    operation: "connect classified PipeWire producer",
                    message: text,
                },
                undo: Undo::Stream(stream),
            },
        ),
        PortOutcome::Cancelled => Err(
            StartFailure {
                error: KernelDisplayError::new(
                    "start capture generation",
                    "operation was cancelled",
                ),
                undo: Undo::Stream(stream),
            },
        ),
    }
}

/// How the export of the buffers was taken in.
pub open spec fn buffers_exported(
    stream: CaptureStreamInfo,
    reply: Result<bool, String>,
    result: Result<(), StartFailure>,
) -> bool {
    match reply {
        Err(text) => fails_with(
            result,
            kernel_error("export CastKMS capture buffer"@, text@),
            Undo::Stream(stream),
        ),
        Ok(timelines) => if timelines {
            result is Ok
        } else {
            fails_with(
                result,
                kernel_error(
                    "export CastKMS capture buffer"@,
                    "explicit buffer has no sync timelines"@,
                ),
                Undo::Stream(stream),
            )
        },
    }
}

/// Take in one exported buffer, as whether it has timelines.
pub fn export_video_buffers(stream: CaptureStreamInfo, reply: Result<bool, String>) -> (result:
    Result<(), StartFailure>)
    ensures
        buffers_exported(stream, reply, result),
{
    match reply {
        Err(text) => Err(
            StartFailure {
                error: KernelDisplayError {
                    operation: "export CastKMS capture buffer",
                    message: text,
                },
                undo: Undo::Stream(stream),
            },
        ),
        Ok(true) => Ok(()),
        Ok(false) => Err(
            StartFailure {
                error: KernelDisplayError::new(
                    "export CastKMS capture buffer",
                    "explicit buffer has no sync timelines",
                ),
                undo: Undo::Stream(stream),
            },
        ),
    }
}

/// What the video source is started with.
#[derive(Debug, PartialEq, Eq)]
pub struct VideoSourceConfig {
    pub node_name: String,
    pub node_description: String,
    pub session_id: String,
    pub device_instance: String,
    pub connector_id: NonZeroU32,
    pub output_index: u32,
    pub grant_id: NonZeroU32,
    pub media_generation: NonZeroU64,
    pub refresh_hz: NonZeroU32,
}

/// The name of the video node of a generation.
pub open spec fn video_node_name(session_id: Seq<char>, media_generation: NonZeroU64) -> Seq<char> {
    "pronk.video."@ + session_id + "."@ + decimal(media_generation@ as nat)
}

/// The source is that of the generation.
pub open spec fn configures_source(
    config: CastKmsActorConfig,
    admitted: AdmittedStart,
    stream: CaptureStreamInfo,
    source: VideoSourceConfig,
) -> bool {
    &&& source.node_name@ == video_node_name(config.session_id@, admitted.media_generation)
    &&& source.node_description == config.node_description
    &&& source.session_id == config.session_id
    &&& source.device_instance == config.device_instance
    &&& source.connector_id == admitted.connector_id
    &&& source.output_index == config.output_index
    &&& source.grant_id == admitted.grant_id
    &&& source.media_generation == admitted.media_generation
    &&& source.refresh_hz == stream.refresh_hz
}

pub fn source_config(
    config: &CastKmsActorConfig,
    admitted: AdmittedStart,
    stream: CaptureStreamInfo,
) -> (source: VideoSourceConfig)
    ensures
        configures_source(*config, admitted, stream, source),
{
    VideoSourceConfig {
        node_name: node_name(config.session_id.as_str(), admitted.media_generation),
        node_description: config.node_description.clone(),
        session_id: config.session_id.clone(),
        device_instance: config.device_instance.clone(),
        connector_id: admitted.connector_id,
        output_index: config.output_index,
        grant_id: admitted.grant_id,
        media_generation: admitted.media_generation,
        refresh_hz: stream.refresh_hz,
    }
}

/// [`video_node_name`] as text.
pub fn node_name(session_id: &str, media_generation: NonZeroU64) -> (name: String)
    ensures
        name@ == video_node_name(session_id@, media_generation),
{
    let mut name = concat("pronk.video.", session_id);
    name.append(".");
    push_decimal(&mut name, media_generation.get());
    name
}

/// How the start of the source was taken in.
pub open spec fn source_checked(
    admitted: AdmittedStart,
    stream: CaptureStreamInfo,
    reply: Result<VideoNodeIdentity, String>,
    cancelled: bool,
    result: Result<VideoNodeIdentity, StartFailure>,
) -> bool {
    match reply {
        Err(text) => fails_with(
            result,
            kernel_error("start PipeWire source"@, text@),
            Undo::Stream(stream),
        ),
        Ok(identity) => if cancelled {
            fails_with(
                result,
                kernel_error("start PipeWire source"@, "operation was cancelled"@),
                Undo::SourceAndStream { media_generation: admitted.media_generation, stream },
            )
        } else if identity.media_generation != admitted.media_generation {
            fails_with(
                result,
                kernel_error(
                    "start PipeWire source"@,
                    "source returned a stale media generation"@,
                ),
                Undo::SourceAndStream { media_generation: admitted.media_generation, stream },
            )
        } else {
            result == Ok::<_, StartFailure>(identity)
        },
    }
}

/// Take in the video source that was started, and whether the start has been
/// cancelled meanwhile.
pub fn source_started(
    admitted: AdmittedStart,
    stream: CaptureStreamInfo,
    reply: Result<VideoNodeIdentity, String>,
    cancelled: bool,
) -> (result: Result<VideoNodeIdentity, StartFailure>)
    ensures
        source_checked(admitted, stream, reply, cancelled, result),
{
    match reply {
        Err(text) => Err(
            StartFailure {
                error: KernelDisplayError { operation: "start PipeWire source", message: text },
                undo: Undo::Stream(stream),
            },
        ),
        Ok(identity) => {
            let undo = Undo::SourceAndStream {
                media_generation: admitted.media_generation,
                stream,
            };
            if cancelled {
                return Err(
                    StartFailure {
                        error: KernelDisplayError::new(
                            "start PipeWire source",
                            "operation was cancelled",
                        ),
                        undo,
                    },
                );
            }
            if identity.media_generation != admitted.media_generation {
                return Err(
                    StartFailure {
                        error: KernelDisplayError::new(
                            "start PipeWire source",
                            "source returned a stale media generation",
                        ),
                        undo,
                    },
                );
            }
            Ok(identity)
        },
    }
}

/// The generation and what is handed to the media session.
pub open spec fn generation_made(
    config: &CastKmsActorConfig,
    admitted: AdmittedStart,
    stream: CaptureStreamInfo,
    identity: VideoNodeIdentity,
    audio_sink: Option<AudioSink>,
    result: (ActiveGeneration, PreparedCaptureMedia),
) -> bool {
    &&& result.0@.wf()
    &&& result.0@ == (GenerationView {
        media_generation: admitted.media_generation,
        stream,
        identity: identity@,
        transports: Map::empty(),
        available: Seq::empty(),
        outstanding: Seq::empty(),
        next_user_data: 1,
        source_active: true,
        suspended: true,
    })
    &&& result.1.media_generation == admitted.media_generation
    &&& describes_target(result.1.video_target, config, admitted)
    &&& result.1.video_target.kind == DeviceMediaKind::Video
    &&& result.1.video_target.node_name == identity.node_name
    &&& result.1.video_target.object_serial == identity.object_serial
    &&& result.1.video_target.caps@ == video_caps(stream)
    &&& match audio_sink {
        None => result.1.audio_target is None,
        Some(sink) => {
            &&& result.1.audio_target is Some
            &&& describes_target(result.1.audio_target->0, config, admitted)
            &&& result.1.audio_target->0.kind == DeviceMediaKind::Audio
            &&& result.1.audio_target->0.node_name == sink.node_name
            &&& result.1.audio_target->0.object_serial == sink.object_serial
            &&& result.1.audio_target->0.caps@
                == "audio/x-raw,format=S16LE,layout=interleaved,rate=48000,channels=2"@
        },
    }
    &&& result.1.configuration == (DeviceMediaConfiguration {
        video_profile_id: config.video_profile_id,
        audio_profile_id: config.audio_profile_id,
        mode: admitted.request.route.mode,
        video_bitrate: config.video_bitrate,
    })
}

/// The generation and the media of a start that went through.
///
/// The generation begins suspended: the target must exist before the backend
/// completes its handshake, but frames that were published during the handshake
/// would be stale. Capture is activated right before media is to play.
pub fn start_generation(
    config: &CastKmsActorConfig,
    admitted: AdmittedStart,
    stream: CaptureStreamInfo,
    identity: VideoNodeIdentity,
    audio_sink: Option<AudioSink>,
) -> (result: (ActiveGeneration, PreparedCaptureMedia))
    ensures
        generation_made(config, admitted, stream, identity, audio_sink, result),
{
    let video_target = DeviceMediaTarget {
        kind: DeviceMediaKind::Video,
        node_name: identity.node_name.clone(),
        object_serial: identity.object_serial,
        session_id: config.session_id.clone(),
        device_instance: config.device_instance.clone(),
        connector_id: admitted.connector_id,
        output_index: config.output_index,
        media_generation: admitted.media_generation,
        render_device: None,
        caps: raw_video_caps(stream),
    };
    let audio_target = match audio_sink {
        None => None,
        Some(sink) => Some(
            DeviceMediaTarget {
                kind: DeviceMediaKind::Audio,
                node_name: sink.node_name,
                object_serial: sink.object_serial,
                session_id: config.session_id.clone(),
                device_instance: config.device_instance.clone(),
                connector_id: admitted.connector_id,
                output_index: config.output_index,
                media_generation: admitted.media_generation,
                render_device: None,
                caps: raw_audio_caps().to_owned(),
            },
        ),
    };
    let generation = ActiveGeneration {
        media_generation: admitted.media_generation,
        stream,
        identity,
        transports: HashMap::new(),
        available: VecDeque::new(),
        outstanding: VecDeque::new(),
        next_user_data: 1,
        source_active: true,
        suspended: true,
    };
    proof {
        assert(generation@.transports =~= Map::empty());
    }
    (
        generation,
        PreparedCaptureMedia {
            media_generation: admitted.media_generation,
            video_target,
            audio_target,
            configuration: DeviceMediaConfiguration {
                video_profile_id: config.video_profile_id.clone(),
                audio_profile_id: clone_text(&config.audio_profile_id),
                mode: admitted.request.route.mode,
                video_bitrate: config.video_bitrate,
            },
        },
    )
}

/// The target belongs to the session, the output and the generation.
pub open spec fn describes_target(
    target: DeviceMediaTarget,
    config: &CastKmsActorConfig,
    admitted: AdmittedStart,
) -> bool {
    &&& target.session_id == config.session_id
    &&& target.device_instance == config.device_instance
    &&& target.connector_id == admitted.connector_id
    &&& target.output_index == config.output_index
    &&& target.media_generation == admitted.media_generation
    &&& target.render_device is None
}

/// What came of stopping a source that should not run.
pub fn stop_started_source(outcome: SourceStop) -> (result: Result<(), KernelDisplayError>)
    ensures
        match outcome {
            SourceStop::Failed(text) => result is Err && result->Err_0@ == kernel_error(
                "roll back PipeWire source"@,
                text@,
            ),
            _ => result is Ok,
        },
{
    match outcome {
        SourceStop::Stopped(_) | SourceStop::ShutdownFailed { .. }
        | SourceStop::NoActiveGeneration => Ok(()),
        SourceStop::Failed(text) => Err(
            KernelDisplayError { operation: "roll back PipeWire source", message: text },
        ),
    }
}

/// Whether a stream that was not published still captures, and has to be
/// stopped before its pool goes.
pub fn rollback_stops_capture(active: Option<CaptureStreamInfo>, stream: CaptureStreamInfo) -> (stop:
    bool)
    ensures
        stop == (active == Some(stream)),
{
    match active {
        Some(active) => active == stream,
        None => false,
    }
}

/// What is told of a start that was undone.
pub open spec fn tells_rollback(
    stopped: Option<Result<(), String>>,
    destroyed: Option<Result<(), String>>,
    result: Result<(), KernelDisplayError>,
) -> bool {
    match stopped {
        Some(Err(text)) => result is Err && result->Err_0@ == kernel_error(
            "roll back CastKMS capture"@,
            text@,
        ),
        _ => match destroyed {
            Some(Err(text)) => result is Err && result->Err_0@ == kernel_error(
                "destroy rolled-back capture pool"@,
                text@,
            ),
            _ => result is Ok,
        },
    }
}

/// Take in what came of rolling back a stream: whether capture was stopped,
/// and whether the pool was destroyed, as far as there was a need.
pub fn rollback_unpublished(
    stopped: Option<Result<(), String>>,
    destroyed: Option<Result<(), String>>,
) -> (result: Result<(), KernelDisplayError>)
    ensures
        tells_rollback(stopped, destroyed, result),
{
    if let Some(Err(text)) = stopped {
        return Err(KernelDisplayError { operation: "roll back CastKMS capture", message: text });
    }
    if let Some(Err(text)) = destroyed {
        return Err(
            KernelDisplayError { operation: "destroy rolled-back capture pool", message: text },
        );
    }
    Ok(())
}

/// A generation is admitted only while none is active, with a number, a connector and
/// a grant, and while nobody gave it up; it is then the one that was asked for.
pub proof fn admitted_starts_are_as_asked(
    active: bool,
    request: MediaStartRequest,
    connector_id: u32,
    grant_id: u32,
    cancelled: bool,
    result: Result<AdmittedStart, KernelDisplayError>,
)
    requires
        start_admitted(active, request, connector_id, grant_id, cancelled, result),
    ensures
        result is Ok <==> !active && request.media_generation > 0 && connector_id > 0 && grant_id
            > 0 && !cancelled,
        result matches Ok(admitted) ==> admitted.request == request
            && admitted.media_generation@ == request.media_generation && admitted.connector_id@
            == connector_id && admitted.grant_id@ == grant_id,
{
}

/// The pool of four buffers has to fit.
pub proof fn pools_need_room_for_four_buffers(
    reply: Result<u32, String>,
    result: Result<(), KernelDisplayError>,
)
    requires
        capabilities_checked(reply, result),
    ensures
        result is Ok <==> reply is Ok && reply->Ok_0 >= 4,
        reply is Err ==> result->Err_0@.message == reply->Err_0@,
{
}

/// A stream on another pipe or of another size is refused, and undone with the
/// refusal; one that did not start leaves nothing behind.
pub proof fn foreign_streams_are_undone(
    admitted: AdmittedStart,
    reply: Result<CaptureStreamInfo, String>,
    result: Result<CaptureStreamInfo, StartFailure>,
)
    requires
        stream_checked(admitted, reply, result),
    ensures
        result is Ok <==> reply is Ok && reply->Ok_0.crtc_id@
            == admitted.request.route.target.0@ && reply->Ok_0.width@
            == admitted.request.route.mode.width && reply->Ok_0.height@
            == admitted.request.route.mode.height,
        result is Ok ==> result->Ok_0 == reply->Ok_0,
        reply is Err ==> result->Err_0.undo is Nothing && result->Err_0.error@.message
            == reply->Err_0@,
        reply is Ok && result is Err ==> result->Err_0.undo == Undo::Stream(reply->Ok_0),
{
}

/// Every buffer belongs to the stream and has its timelines; a failure undoes the
/// stream.
pub proof fn foreign_buffers_are_undone(
    index: u32,
    stream: CaptureStreamInfo,
    owner: Result<NonZeroU32, String>,
    allocated: Result<(), StartFailure>,
    timelines: Result<bool, String>,
    exported: Result<(), StartFailure>,
)
    requires
        buffer_allocated(index, stream, owner, allocated),
        buffers_exported(stream, timelines, exported),
    ensures
        allocated is Ok <==> owner is Ok && owner->Ok_0 == stream.stream_id,
        allocated is Err ==> allocated->Err_0.undo == Undo::Stream(stream),
        exported is Ok <==> timelines is Ok && timelines->Ok_0,
        exported is Err ==> exported->Err_0.undo == Undo::Stream(stream),
        timelines is Err ==> exported->Err_0.error@.message == timelines->Err_0@,
{
}

/// A source is that of its display, its grant and its generation, and delivers at the
/// rate of the stream.
pub proof fn sources_are_those_of_their_generation(
    config: CastKmsActorConfig,
    admitted: AdmittedStart,
    stream: CaptureStreamInfo,
    source: VideoSourceConfig,
)
    requires
        configures_source(config, admitted, stream, source),
    ensures
        source.node_description == config.node_description,
        source.session_id == config.session_id,
        source.device_instance == config.device_instance,
        source.output_index == config.output_index,
        source.connector_id == admitted.connector_id,
        source.grant_id == admitted.grant_id,
        source.media_generation == admitted.media_generation,
        source.refresh_hz == stream.refresh_hz,
        source.node_name@.subrange(12, 12 + config.session_id@.len() as int)
            == config.session_id@,
        source.node_name@.skip(13 + config.session_id@.len() as int) == decimal(
            admitted.media_generation@ as nat,
        ),
{
    reveal_strlit("pronk.video.");
    reveal_strlit(".");
    let name = source.node_name@;
    assert(name.subrange(12, 12 + config.session_id@.len() as int) =~= config.session_id@);
    assert(name.skip(13 + config.session_id@.len() as int) =~= decimal(
        admitted.media_generation@ as nat,
    ));
}

/// A source is kept if it is of the generation and nobody gave that up; one that is
/// not is undone together with the stream, and one that did not start leaves the stream
/// to undo.
pub proof fn stale_sources_are_undone(
    admitted: AdmittedStart,
    stream: CaptureStreamInfo,
    reply: Result<VideoNodeIdentity, String>,
    cancelled: bool,
    result: Result<VideoNodeIdentity, StartFailure>,
)
    requires
        source_checked(admitted, stream, reply, cancelled, result),
    ensures
        result is Ok <==> reply is Ok && !cancelled && reply->Ok_0.media_generation
            == admitted.media_generation,
        result is Ok ==> result->Ok_0 == reply->Ok_0,
        reply is Err ==> result->Err_0.undo == Undo::Stream(stream),
        reply is Ok && result is Err ==> result->Err_0.undo == (Undo::SourceAndStream {
            media_generation: admitted.media_generation,
            stream,
        }),
{
}

/// A new generation has no buffers and no requests yet, numbers its requests from one
/// and is not running; the media session gets its node, and the sound exactly if there
/// is a sink.
pub proof fn generations_begin_empty(
    config: CastKmsActorConfig,
    admitted: AdmittedStart,
    stream: CaptureStreamInfo,
    identity: VideoNodeIdentity,
    audio_sink: Option<AudioSink>,
    result: (ActiveGeneration, PreparedCaptureMedia),
)
    requires
        generation_made(&config, admitted, stream, identity, audio_sink, result),
    ensures
        ({
            let (generation, media) = result;
            &&& generation@.media_generation == admitted.media_generation
            &&& generation@.stream == stream
            &&& generation@.identity == identity@
            &&& generation@.transports.dom() =~= Set::empty()
            &&& generation@.available.len() == 0
            &&& generation@.outstanding.len() == 0
            &&& generation@.next_user_data == 1
            &&& generation@.source_active
            &&& generation@.suspended
            &&& media.media_generation == admitted.media_generation
            &&& media.configuration.mode == admitted.request.route.mode
            &&& media.configuration.video_profile_id == config.video_profile_id
            &&& media.configuration.audio_profile_id == config.audio_profile_id
            &&& media.configuration.video_bitrate == config.video_bitrate
            &&& media.video_target.kind is Video
            &&& media.video_target.node_name == identity.node_name
            &&& media.video_target.object_serial == identity.object_serial
            &&& media.video_target.connector_id == admitted.connector_id
            &&& media.video_target.output_index == config.output_index
            &&& media.video_target.session_id == config.session_id
            &&& media.video_target.device_instance == config.device_instance
            &&& media.video_target.media_generation == admitted.media_generation
            &&& media.video_target.render_device is None
            &&& media.video_target.caps@ == video_caps(stream)
            &&& media.audio_target is Some <==> audio_sink is Some
            &&& audio_sink is Some ==> {
                &&& media.audio_target->0.kind is Audio
                &&& media.audio_target->0.node_name == audio_sink->0.node_name
                &&& media.audio_target->0.object_serial == audio_sink->0.object_serial
                &&& media.audio_target->0.connector_id == admitted.connector_id
                &&& media.audio_target->0.output_index == config.output_index
                &&& media.audio_target->0.session_id == config.session_id
                &&& media.audio_target->0.device_instance == config.device_instance
                &&& media.audio_target->0.media_generation == admitted.media_generation
                &&& media.audio_target->0.render_device is None
            }
        }),
{
}

/// A start is undone if whatever had to be stopped was, and whatever had to be
/// destroyed was; the first failure is told.
pub proof fn undone_starts_tell_the_first_failure(
    stopped: Option<Result<(), String>>,
    destroyed: Option<Result<(), String>>,
    result: Result<(), KernelDisplayError>,
)
    requires
        tells_rollback(stopped, destroyed, result),
    ensures
        result is Ok <==> (stopped is None || stopped->0 is Ok) && (destroyed is None
            || destroyed->0 is Ok),
        stopped is Some && stopped->0 is Err ==> result->Err_0@.message == stopped->0->Err_0@,
        (stopped is None || stopped->0 is Ok) && destroyed is Some && destroyed->0 is Err
            ==> result->Err_0@.message == destroyed->0->Err_0@,
{
}

/// A refused start says the first thing that is in its way.
pub proof fn refused_starts_say_what_is_in_the_way(
    active: bool,
    request: MediaStartRequest,
    connector_id: u32,
    grant_id: u32,
    cancelled: bool,
)
    ensures
        ({
            let refusal = start_refusal(active, request, connector_id, grant_id, cancelled);
            let numbered = request.media_generation > 0;
            &&& active ==> refusal == Some("another media generation is still active"@)
            &&& !active && !numbered ==> refusal == Some("media generation is zero"@)
            &&& !active && numbered && connector_id == 0 ==> refusal == Some(
                "CastKMS connector ID is zero"@,
            )
            &&& !active && numbered && connector_id > 0 && grant_id == 0 ==> refusal == Some(
                "CastKMS grant ID is zero"@,
            )
            &&& !active && numbered && connector_id > 0 && grant_id > 0 && cancelled ==> refusal
                == Some("operation was cancelled"@)
        }),
{
}

/// A pool that does not fit is refused with the number of buffers that there is room for.
pub proof fn refused_pools_name_the_room(
    reply: Result<u32, String>,
    result: Result<(), KernelDisplayError>,
)
    requires
        capabilities_checked(reply, result),
        reply is Ok,
        result is Err,
    ensures
        ({
            let text = result->Err_0@.message;
            let room = decimal(reply->Ok_0 as nat);
            &&& text.subrange(17, 17 + room.len() as int) == room
            &&& text.subrange(27 + room.len() as int, 28 + room.len() as int) == decimal(4)
        }),
{
    reveal_strlit("CastKMS supports ");
    reveal_strlit(" buffers; ");
    let text = result->Err_0@.message;
    let room = decimal(reply->Ok_0 as nat);
    assert(text.subrange(17, 17 + room.len() as int) =~= room);
    assert(decimal(4).len() == 1);
    assert(text.subrange(27 + room.len() as int, 28 + room.len() as int) =~= decimal(4));
}

} // verus!
