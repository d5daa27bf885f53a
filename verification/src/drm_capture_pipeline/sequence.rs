//! The order in which a generation of final images is started.

use crate::castkms_actor::start::{node_name, video_node_name};
use crate::device_session_port::{DeviceMediaConfiguration, DeviceMediaKind};
use crate::drm_capture_pipeline::{
    capture_caps, fits_route, layout_refusal, require_route_layout, setup_of, CaptureOperation,
    DrmCapturePipeline, DrmCapturePipelineConfig, Layout,
};
use crate::drm_capture_pipeline::setup::{check_cancellation, spawn_actor};
use crate::media_pipeline_port::{MediaPipelineError, PreparedCaptureMedia};
use crate::media_session::MediaStartRequest;
use crate::nonzero::{NonZeroU32, NonZeroU64};
use vstd::prelude::*;

verus! {

/// A generation on its way.
#[derive(Debug, Clone, Copy, PartialEq, Eq, Structural)]
pub struct PipelineStart {
    pub request: MediaStartRequest,
    pub generation: NonZeroU64,
    pub phase: PipelinePhase,
}

/// What the start waits for.
#[derive(Debug, Clone, Copy, PartialEq, Eq, Structural)]
pub enum PipelinePhase {
    /// The capture session.
    Open,
    /// The description of the output.
    Describe,
    /// A pool of buffers.
    Allocate { layout: Layout },
    /// The capture itself.
    StartActor { layout: Layout },
    /// A connection of the media service.
    Connect { layout: Layout },
    /// The video node.
    Prepare { layout: Layout },
    /// The end of a node that is not wanted.
    Retire { stale: bool },
}

/// How a video node is described.
#[derive(Debug, PartialEq, Eq)]
pub struct VideoSource {
    pub node_name: String,
    pub node_description: String,
    pub session_id: String,
    pub device_instance: String,
    pub connector_id: NonZeroU32,
    pub output_index: u32,
    pub media_generation: NonZeroU64,
    pub refresh_hz: NonZeroU32,
}

/// What to do next.
#[derive(Debug, PartialEq, Eq)]
pub enum PipelineAction {
    Open,
    Describe,
    Allocate {
        layout: Layout,
        heap_path: String,
        pool_size: NonZeroU32,
        pool_byte_limit: NonZeroU64,
    },
    StartActor { capacity: NonZeroU32, poll_interval_ns: u64, shutdown_timeout_ns: u64 },
    /// Connect, unless the start is cancelled first.
    Connect,
    Prepare(VideoSource),
    Shutdown,
}

/// What came of it.
#[derive(Debug, PartialEq, Eq)]
pub enum PipelineReply {
    Done(Result<(), String>),
    Described(Result<Layout, String>),
    Started(Result<Layout, String>),
    /// A cancellation came before the connection.
    Cancelled,
    Prepared(Result<PreparedNode, String>),
}

/// A video node, as the media service knows it.
#[derive(Debug, PartialEq, Eq)]
pub struct PreparedNode {
    pub node_name: String,
    pub object_serial: NonZeroU64,
    pub media_generation: NonZeroU64,
}

/// How the start goes on.
#[derive(Debug, PartialEq, Eq)]
pub enum PipelineProgress {
    Next(PipelineStart),
    Started(PreparedCaptureMedia),
    Failed(MediaPipelineError),
}

/// The source is the one of the generation.
pub open spec fn describes_source(
    source: VideoSource,
    config: DrmCapturePipelineConfig,
    generation: NonZeroU64,
) -> bool {
    &&& source.node_name@ == video_node_name(config.session_id@, generation)
    &&& source.node_description == config.node_description
    &&& source.session_id == config.session_id
    &&& source.device_instance == config.device_instance
    &&& source.connector_id == config.connector_id
    &&& source.output_index == config.output_index
    &&& source.media_generation == generation
    &&& source.refresh_hz == config.capture_rate_hz
}

/// The media is that of the node.
pub open spec fn offers_media(
    prepared: PreparedCaptureMedia,
    config: DrmCapturePipelineConfig,
    start: PipelineStart,
    node: PreparedNode,
    layout: Layout,
) -> bool {
    &&& prepared.media_generation == start.generation
    &&& prepared.audio_target is None
    &&& prepared.configuration == (DeviceMediaConfiguration {
        video_profile_id: config.video_profile_id,
        audio_profile_id: None,
        mode: start.request.route.mode,
        video_bitrate: config.video_bitrate,
    })
    &&& prepared.video_target.kind == DeviceMediaKind::Video
    &&& prepared.video_target.node_name == node.node_name
    &&& prepared.video_target.object_serial == node.object_serial
    &&& prepared.video_target.session_id == config.session_id
    &&& prepared.video_target.device_instance == config.device_instance
    &&& prepared.video_target.connector_id == config.connector_id
    &&& prepared.video_target.output_index == config.output_index
    &&& prepared.video_target.media_generation == start.generation
    &&& prepared.video_target.render_device is None
    &&& prepared.video_target.caps@ == capture_caps(layout, config.capture_rate_hz)
}

/// The start fails with the text.
pub open spec fn start_fails(progress: PipelineProgress, text: Seq<char>) -> bool {
    progress matches PipelineProgress::Failed(error) && error.0@ == text
}

/// The start goes to the phase.
pub open spec fn goes_to(
    start: PipelineStart,
    phase: PipelinePhase,
    progress: PipelineProgress,
) -> bool {
    progress == PipelineProgress::Next(PipelineStart { phase, ..start })
}

/// The text of a start that was taken back or overtaken, once its node is gone.
pub open spec fn retired_text(stale: bool) -> Seq<char> {
    if stale {
        "PipeWire source returned a stale media generation"@
    } else {
        "capture start was cancelled"@
    }
}

/// The operation by which an unwanted node goes.
pub open spec fn retires_by(stale: bool) -> CaptureOperation {
    if stale {
        CaptureOperation::StopStale
    } else {
        CaptureOperation::Cancel
    }
}

/// The start goes on as it is due. It keeps waiting where the reply is not the
/// one that it waits for.
pub open spec fn pipeline_reacts(
    config: DrmCapturePipelineConfig,
    start: PipelineStart,
    reply: PipelineReply,
    cancelled: bool,
    progress: PipelineProgress,
) -> bool {
    let mode = start.request.route.mode;
    match (start.phase, reply) {
        (PipelinePhase::Open, PipelineReply::Done(Err(text))) => start_fails(
            progress,
            CaptureOperation::Open.failure(text@),
        ),
        (PipelinePhase::Open, PipelineReply::Done(Ok(_))) => goes_to(
            start,
            PipelinePhase::Describe,
            progress,
        ),
        (PipelinePhase::Describe, PipelineReply::Described(Err(text))) => start_fails(
            progress,
            CaptureOperation::Describe.failure(text@),
        ),
        (PipelinePhase::Describe, PipelineReply::Described(Ok(layout))) => if fits_route(
            layout,
            mode,
        ) {
            goes_to(start, PipelinePhase::Allocate { layout }, progress)
        } else {
            start_fails(progress, layout_refusal(layout, mode))
        },
        (PipelinePhase::Allocate { .. }, PipelineReply::Done(Err(text))) => start_fails(
            progress,
            CaptureOperation::Allocate.failure(text@),
        ),
        (PipelinePhase::Allocate { layout }, PipelineReply::Done(Ok(_))) => goes_to(
            start,
            PipelinePhase::StartActor { layout },
            progress,
        ),
        (PipelinePhase::StartActor { .. }, PipelineReply::Started(Err(text))) => start_fails(
            progress,
            CaptureOperation::StartActor.failure(text@),
        ),
        (PipelinePhase::StartActor { .. }, PipelineReply::Started(Ok(layout))) => if fits_route(
            layout,
            mode,
        ) {
            goes_to(start, PipelinePhase::Connect { layout }, progress)
        } else {
            start_fails(progress, "capture layout changed while the generation was starting"@)
        },
        (PipelinePhase::Connect { .. }, PipelineReply::Cancelled) => start_fails(
            progress,
            "capture start was cancelled"@,
        ),
        (PipelinePhase::Connect { .. }, PipelineReply::Done(Err(text))) => start_fails(
            progress,
            CaptureOperation::Connect.failure(text@),
        ),
        (PipelinePhase::Connect { layout }, PipelineReply::Done(Ok(_))) => goes_to(
            start,
            PipelinePhase::Prepare { layout },
            progress,
        ),
        (PipelinePhase::Prepare { .. }, PipelineReply::Prepared(Err(text))) => start_fails(
            progress,
            CaptureOperation::Prepare.failure(text@),
        ),
        (PipelinePhase::Prepare { layout }, PipelineReply::Prepared(Ok(node))) => if cancelled {
            goes_to(start, PipelinePhase::Retire { stale: false }, progress)
        } else if node.media_generation != start.generation {
            goes_to(start, PipelinePhase::Retire { stale: true }, progress)
        } else {
            progress matches PipelineProgress::Started(prepared) && offers_media(
                prepared,
                config,
                start,
                node,
                layout,
            )
        },
        (PipelinePhase::Retire { stale }, PipelineReply::Done(Err(text))) => start_fails(
            progress,
            retires_by(stale).failure(text@),
        ),
        (PipelinePhase::Retire { stale }, PipelineReply::Done(Ok(_))) => start_fails(
            progress,
            retired_text(stale),
        ),
        _ => progress == PipelineProgress::Next(start),
    }
}

/// The action is the one of the phase.
pub open spec fn asks_for(
    action: PipelineAction,
    config: DrmCapturePipelineConfig,
    start: PipelineStart,
) -> bool {
    match start.phase {
        PipelinePhase::Open => action == PipelineAction::Open,
        PipelinePhase::Describe => action == PipelineAction::Describe,
        PipelinePhase::Allocate { layout } => action == (PipelineAction::Allocate {
            layout,
            heap_path: config.heap_path,
            pool_size: config.pool_size,
            pool_byte_limit: config.pool_byte_limit,
        }),
        PipelinePhase::StartActor { .. } => action == (PipelineAction::StartActor {
            capacity: config.request_capacity,
            poll_interval_ns: config.poll_interval_ns,
            shutdown_timeout_ns: config.shutdown_timeout_ns,
        }),
        PipelinePhase::Connect { .. } => action == PipelineAction::Connect,
        PipelinePhase::Prepare { .. } => action matches PipelineAction::Prepare(source)
            && describes_source(source, config, start.generation),
        PipelinePhase::Retire { .. } => action == PipelineAction::Shutdown,
    }
}

fn step(start: PipelineStart, phase: PipelinePhase) -> (progress: PipelineProgress)
    ensures
        goes_to(start, phase, progress),
{
    PipelineProgress::Next(
        PipelineStart { request: start.request, generation: start.generation, phase },
    )
}

fn failure(operation: CaptureOperation, text: String) -> (progress: PipelineProgress)
    ensures
        start_fails(progress, operation.failure(text@)),
{
    PipelineProgress::Failed(operation.failed(text.as_str()))
}

/// How the start of a generation was asked for.
pub open spec fn start_asked(
    pipeline: DrmCapturePipeline,
    request: MediaStartRequest,
    cancelled: bool,
    result: Result<PipelineStart, MediaPipelineError>,
) -> bool {
    &&& result is Ok <==> pipeline.active is None && setup_of(pipeline.config).sound()
        && request.media_generation != 0 && !cancelled
    &&& result matches Ok(start) ==> start.request == request && start.generation@
        == request.media_generation && start.phase == PipelinePhase::Open
    &&& result matches Err(error) ==> error.0@ == (if pipeline.active is Some {
        "a previous capture generation still requires cleanup"@
    } else if !setup_of(pipeline.config).sound() {
        "invalid capture pool, queue, or timing configuration"@
    } else if request.media_generation == 0 {
        "media generation must be nonzero"@
    } else {
        "capture start was cancelled"@
    })
}

impl DrmCapturePipeline {
    /// Begin to start a generation: nothing is active, the policy is sound, the
    /// request names a generation and is still wanted.
    pub fn start(&self, request: MediaStartRequest, cancelled: bool) -> (result: Result<
        PipelineStart,
        MediaPipelineError,
    >)
        ensures
            start_asked(*self, request, cancelled, result),
    {
        let generation = match self.begin_start(request) {
            Ok(generation) => generation,
            Err(error) => {
                return Err(error);
            },
        };
        match check_cancellation(cancelled) {
            Err(error) => Err(error),
            Ok(()) => Ok(PipelineStart { request, generation, phase: PipelinePhase::Open }),
        }
    }

    /// What the start asks for.
    pub fn action(&self, start: PipelineStart) -> (action: PipelineAction)
        ensures
            asks_for(action, self.config, start),
    {
        match start.phase {
            PipelinePhase::Open => PipelineAction::Open,
            PipelinePhase::Describe => PipelineAction::Describe,
            PipelinePhase::Allocate { layout } => PipelineAction::Allocate {
                layout,
                heap_path: self.config.heap_path.clone(),
                pool_size: self.config.pool_size,
                pool_byte_limit: self.config.pool_byte_limit,
            },
            PipelinePhase::StartActor { .. } => PipelineAction::StartActor {
                capacity: self.config.request_capacity,
                poll_interval_ns: self.config.poll_interval_ns,
                shutdown_timeout_ns: self.config.shutdown_timeout_ns,
            },
            PipelinePhase::Connect { .. } => PipelineAction::Connect,
            PipelinePhase::Prepare { .. } => PipelineAction::Prepare(
                VideoSource {
                    node_name: node_name(self.config.session_id.as_str(), start.generation),
                    node_description: self.config.node_description.clone(),
                    session_id: self.config.session_id.clone(),
                    device_instance: self.config.device_instance.clone(),
                    connector_id: self.config.connector_id,
                    output_index: self.config.output_index,
                    media_generation: start.generation,
                    refresh_hz: self.config.capture_rate_hz,
                },
            ),
            PipelinePhase::Retire { .. } => PipelineAction::Shutdown,
        }
    }

    /// Go on with what came of a phase. The generation is active once its media
    /// is there.
    pub fn proceed(&mut self, start: PipelineStart, reply: PipelineReply, cancelled: bool) -> (progress:
        PipelineProgress)
        ensures
            final(self).config == old(self).config,
            final(self).active == (if progress is Started {
                Some(start.generation)
            } else {
                old(self).active
            }),
            pipeline_reacts(old(self).config, start, reply, cancelled, progress),
    {
        match (start.phase, reply) {
            (PipelinePhase::Open, PipelineReply::Done(done)) => match done {
                Err(text) => failure(CaptureOperation::Open, text),
                Ok(()) => step(start, PipelinePhase::Describe),
            },
            (PipelinePhase::Describe, PipelineReply::Described(described)) => match described {
                Err(text) => failure(CaptureOperation::Describe, text),
                Ok(layout) => match require_route_layout(layout, start.request) {
                    Err(error) => PipelineProgress::Failed(error),
                    Ok(()) => step(start, PipelinePhase::Allocate { layout }),
                },
            },
            (PipelinePhase::Allocate { layout }, PipelineReply::Done(done)) => match done {
                Err(text) => failure(CaptureOperation::Allocate, text),
                Ok(()) => step(start, PipelinePhase::StartActor { layout }),
            },
            (PipelinePhase::StartActor { .. }, PipelineReply::Started(started)) => {
                match spawn_actor(started, start.request) {
                    Err(error) => PipelineProgress::Failed(error),
                    Ok(layout) => step(start, PipelinePhase::Connect { layout }),
                }
            },
            (PipelinePhase::Connect { .. }, PipelineReply::Cancelled) => PipelineProgress::Failed(
                MediaPipelineError::new("capture start was cancelled"),
            ),
            (PipelinePhase::Connect { layout }, PipelineReply::Done(done)) => match done {
                Err(text) => failure(CaptureOperation::Connect, text),
                Ok(()) => step(start, PipelinePhase::Prepare { layout }),
            },
            (PipelinePhase::Prepare { layout }, PipelineReply::Prepared(prepared)) => {
                match prepared {
                    Err(text) => failure(CaptureOperation::Prepare, text),
                    Ok(node) => {
                        if cancelled {
                            step(start, PipelinePhase::Retire { stale: false })
                        } else if node.media_generation != start.generation {
                            step(start, PipelinePhase::Retire { stale: true })
                        } else {
                            PipelineProgress::Started(
                                self.keep(
                                    start.request,
                                    start.generation,
                                    node.node_name,
                                    node.object_serial,
                                    layout,
                                ),
                            )
                        }
                    },
                }
            },
            (PipelinePhase::Retire { stale }, PipelineReply::Done(done)) => match done {
                Err(text) => if stale {
                    failure(CaptureOperation::StopStale, text)
                } else {
                    failure(CaptureOperation::Cancel, text)
                },
                Ok(()) => if stale {
                    PipelineProgress::Failed(
                        MediaPipelineError::new("PipeWire source returned a stale media generation"),
                    )
                } else {
                    PipelineProgress::Failed(MediaPipelineError::new("capture start was cancelled"))
                },
            },
            _ => PipelineProgress::Next(start),
        }
    }
}

/// A start that ends well offers the media of its own generation, in the size
/// of its route.
pub proof fn started_generations_fit_their_route(
    config: DrmCapturePipelineConfig,
    start: PipelineStart,
    reply: PipelineReply,
    cancelled: bool,
    progress: PipelineProgress,
)
    requires
        pipeline_reacts(config, start, reply, cancelled, progress),
        start_fits(start),
    ensures
        progress matches PipelineProgress::Next(next) ==> start_fits(next),
        progress matches PipelineProgress::Started(prepared) ==> {
            &&& !cancelled
            &&& prepared.media_generation == start.generation
            &&& prepared.configuration.mode == start.request.route.mode
            &&& start.phase matches PipelinePhase::Prepare { layout } && fits_route(
                layout,
                prepared.configuration.mode,
            )
        },
{
}

/// What the start captures has the size of its route.
pub open spec fn start_fits(start: PipelineStart) -> bool {
    let mode = start.request.route.mode;
    match start.phase {
        PipelinePhase::Allocate { layout } => fits_route(layout, mode),
        PipelinePhase::StartActor { layout } => fits_route(layout, mode),
        PipelinePhase::Connect { layout } => fits_route(layout, mode),
        PipelinePhase::Prepare { layout } => fits_route(layout, mode),
        _ => true,
    }
}

/// A video node that is there but not kept is shut down before the start ends.
pub proof fn unwanted_nodes_are_shut_down(
    config: DrmCapturePipelineConfig,
    start: PipelineStart,
    node: PreparedNode,
    cancelled: bool,
    progress: PipelineProgress,
)
    requires
        start.phase is Prepare,
        pipeline_reacts(config, start, PipelineReply::Prepared(Ok(node)), cancelled, progress),
    ensures
        progress is Started || (progress matches PipelineProgress::Next(next)
            && next.phase is Retire),
{
}

/// A generation starts from the beginning, as requested, unless it was given up or
/// may not start.
pub proof fn starts_begin_with_the_capture_session(
    pipeline: DrmCapturePipeline,
    request: MediaStartRequest,
    cancelled: bool,
    result: Result<PipelineStart, MediaPipelineError>,
)
    requires
        start_asked(pipeline, request, cancelled, result),
    ensures
        cancelled || pipeline.active is Some || request.media_generation == 0 ==> result is Err,
        result is Ok ==> result->Ok_0.request == request && result->Ok_0.generation@
            == request.media_generation && result->Ok_0.phase is Open,
        !cancelled && pipeline.active is None && request.media_generation > 0 && 2
            <= pipeline.config.pool_size@ <= 32 && pipeline.config.request_capacity@
            <= pipeline.config.pool_size@ && pipeline.config.poll_interval_ns > 0
            && pipeline.config.shutdown_timeout_ns > 0 ==> result is Ok,
{
}

/// The order of the phases of a start.
pub open spec fn phase_number(phase: PipelinePhase) -> int {
    match phase {
        PipelinePhase::Open => 0,
        PipelinePhase::Describe => 1,
        PipelinePhase::Allocate { .. } => 2,
        PipelinePhase::StartActor { .. } => 3,
        PipelinePhase::Connect { .. } => 4,
        PipelinePhase::Prepare { .. } => 5,
        PipelinePhase::Retire { .. } => 6,
    }
}

/// A start takes its phases one by one, as the same request of the same generation.
/// A failed reply ends it, and so does nothing else before the node is prepared,
/// save for an output of another size.
pub proof fn starts_take_their_phases_in_order(
    config: DrmCapturePipelineConfig,
    start: PipelineStart,
    reply: PipelineReply,
    cancelled: bool,
    progress: PipelineProgress,
)
    requires
        pipeline_reacts(config, start, reply, cancelled, progress),
    ensures
        progress matches PipelineProgress::Next(next) ==> {
            &&& next.request == start.request
            &&& next.generation == start.generation
            &&& next.phase == start.phase || phase_number(next.phase) == phase_number(start.phase)
                + 1
        },
        reply == PipelineReply::Done(Ok(())) && (start.phase is Open || start.phase is Allocate
            || start.phase is Connect) ==> progress is Next && phase_number(progress->Next_0.phase)
            == phase_number(start.phase) + 1,
        start.phase is Describe && reply is Described && reply->Described_0 is Ok ==> (progress
            is Next <==> fits_route(reply->Described_0->Ok_0, start.request.route.mode)) && (
        progress is Next ==> progress->Next_0.phase == (PipelinePhase::Allocate {
            layout: reply->Described_0->Ok_0,
        })),
        start.phase is StartActor && reply is Started && reply->Started_0 is Ok ==> (progress
            is Next <==> fits_route(reply->Started_0->Ok_0, start.request.route.mode)) && (progress
            is Next ==> progress->Next_0.phase == (PipelinePhase::Connect {
            layout: reply->Started_0->Ok_0,
        })),
        progress is Started ==> start.phase is Prepare && reply is Prepared && reply->Prepared_0
            is Ok && !cancelled && reply->Prepared_0->Ok_0.media_generation == start.generation,
        start.phase is Prepare && reply is Prepared && reply->Prepared_0 is Ok && !cancelled
            && reply->Prepared_0->Ok_0.media_generation == start.generation ==> progress is Started,
        start.phase is Prepare && reply is Prepared && reply->Prepared_0 is Ok && cancelled
            ==> progress is Next && progress->Next_0.phase == (PipelinePhase::Retire {
            stale: false,
        }),
        start.phase is Retire && reply is Done ==> progress is Failed,
        start.phase is Connect && reply is Cancelled ==> progress is Failed,
        reply matches PipelineReply::Done(Err(text)) ==> !(progress is Started),
{
}

/// A started generation offers the node that was prepared for it, in the mode of its
/// route and with the settings of its pipeline; it has no sound.
pub proof fn started_generations_offer_their_node(
    config: DrmCapturePipelineConfig,
    start: PipelineStart,
    reply: PipelineReply,
    cancelled: bool,
    progress: PipelineProgress,
)
    requires
        pipeline_reacts(config, start, reply, cancelled, progress),
        progress is Started,
    ensures
        ({
            let prepared = progress->Started_0;
            let node = reply->Prepared_0->Ok_0;
            let target = prepared.video_target;
            &&& prepared.media_generation == start.generation
            &&& prepared.audio_target is None
            &&& prepared.configuration.mode == start.request.route.mode
            &&& prepared.configuration.video_profile_id == config.video_profile_id
            &&& prepared.configuration.audio_profile_id is None
            &&& prepared.configuration.video_bitrate == config.video_bitrate
            &&& target.kind is Video
            &&& target.node_name == node.node_name
            &&& target.object_serial == node.object_serial
            &&& target.media_generation == start.generation
            &&& target.session_id == config.session_id
            &&& target.device_instance == config.device_instance
            &&& target.connector_id == config.connector_id
            &&& target.output_index == config.output_index
            &&& target.render_device is None
            &&& target.caps@ == capture_caps(start.phase->Prepare_layout, config.capture_rate_hz)
        }),
{
}

/// Each phase asks for its own action, with the settings of the pipeline.
pub proof fn phases_ask_for_their_own_action(
    action: PipelineAction,
    config: DrmCapturePipelineConfig,
    start: PipelineStart,
)
    requires
        asks_for(action, config, start),
    ensures
        action is Open <==> start.phase is Open,
        action is Describe <==> start.phase is Describe,
        action is Allocate <==> start.phase is Allocate,
        action is StartActor <==> start.phase is StartActor,
        action is Connect <==> start.phase is Connect,
        action is Prepare <==> start.phase is Prepare,
        action is Shutdown <==> start.phase is Retire,
        action matches PipelineAction::Allocate {
            layout,
            heap_path,
            pool_size,
            pool_byte_limit,
        } ==> layout == start.phase->Allocate_layout && heap_path == config.heap_path && pool_size
            == config.pool_size && pool_byte_limit == config.pool_byte_limit,
        action matches PipelineAction::StartActor {
            capacity,
            poll_interval_ns,
            shutdown_timeout_ns,
        } ==> capacity == config.request_capacity && poll_interval_ns == config.poll_interval_ns
            && shutdown_timeout_ns == config.shutdown_timeout_ns,
        action matches PipelineAction::Prepare(source) ==> {
            let name = source.node_name@;
            let number = crate::text::decimal(start.generation@ as nat);
            &&& source.node_description == config.node_description
            &&& source.session_id == config.session_id
            &&& source.device_instance == config.device_instance
            &&& source.connector_id == config.connector_id
            &&& source.output_index == config.output_index
            &&& source.media_generation == start.generation
            &&& source.refresh_hz == config.capture_rate_hz
            &&& name.len() == 13 + config.session_id@.len() + number.len()
            &&& name.subrange(12, 12 + config.session_id@.len() as int) == config.session_id@
            &&& name.skip(13 + config.session_id@.len() as int) == number
        },
{
    match action {
        PipelineAction::Prepare(source) => {
            reveal_strlit("pronk.video.");
            reveal_strlit(".");
            let name = source.node_name@;
            let number = crate::text::decimal(start.generation@ as nat);
            assert(name.subrange(12, 12 + config.session_id@.len() as int)
                =~= config.session_id@);
            assert(name.skip(13 + config.session_id@.len() as int) =~= number);
        },
        _ => {},
    }
}

/// A start that may not begin says the first thing that is in its way; one that was given up
/// says so last.
pub proof fn refused_starts_say_what_is_in_the_way(
    pipeline: DrmCapturePipeline,
    request: MediaStartRequest,
    cancelled: bool,
    result: Result<PipelineStart, MediaPipelineError>,
)
    requires
        start_asked(pipeline, request, cancelled, result),
        result is Err,
    ensures
        pipeline.active is Some ==> result->Err_0.0@
            == "a previous capture generation still requires cleanup"@,
        pipeline.active is None && pipeline.config.poll_interval_ns == 0 ==> result->Err_0.0@
            == "invalid capture pool, queue, or timing configuration"@,
        pipeline.active is None && 2 <= pipeline.config.pool_size@ <= 32
            && pipeline.config.request_capacity@ <= pipeline.config.pool_size@
            && pipeline.config.poll_interval_ns > 0 && pipeline.config.shutdown_timeout_ns > 0 ==> (
        if request.media_generation == 0 {
            result->Err_0.0@ == "media generation must be nonzero"@
        } else {
            result->Err_0.0@ == "capture start was cancelled"@
        }),
{
}

/// A failed phase is told under its own name; a node that nobody wants says whether it was stale
/// or given up.
pub proof fn failed_phases_are_told_by_name(
    config: DrmCapturePipelineConfig,
    start: PipelineStart,
    text: String,
    cancelled: bool,
    progress: PipelineProgress,
)
    requires
        pipeline_reacts(config, start, PipelineReply::Done(Err(text)), cancelled, progress),
    ensures
        start.phase is Open ==> progress is Failed && progress->Failed_0.0@
            == CaptureOperation::Open.failure(text@),
        start.phase is Allocate ==> progress is Failed && progress->Failed_0.0@
            == CaptureOperation::Allocate.failure(text@),
        start.phase is Connect ==> progress is Failed && progress->Failed_0.0@
            == CaptureOperation::Connect.failure(text@),
        start.phase matches PipelinePhase::Retire { stale } ==> progress is Failed
            && progress->Failed_0.0@ == (if stale {
            CaptureOperation::StopStale.failure(text@)
        } else {
            CaptureOperation::Cancel.failure(text@)
        }),
        retired_text(true) == "PipeWire source returned a stale media generation"@,
        retired_text(false) == "capture start was cancelled"@,
{
}

} // verus!
