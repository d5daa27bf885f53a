//! Final-image capture of one display as a media pipeline.

pub mod sequence;
pub mod setup;

use crate::device_session_port::{DeviceMediaConfiguration, DeviceMediaKind, DeviceMediaTarget};
use crate::display_state::RoutedMode;
use crate::drm_capture_pipeline::setup::SetupConfig;
use crate::media_pipeline_port::{MediaPipelineError, PreparedCaptureMedia};
use crate::media_session::MediaStartRequest;
use crate::nonzero::{nonzero_u64_ext, NonZeroU32, NonZeroU64};
use crate::text::{concat, decimal, push_decimal};
use vstd::prelude::*;
use vstd::string::*;

verus! {

broadcast use nonzero_u64_ext;

/// Immutable identity and resource policy of one display's capture pipeline.
#[derive(Debug, PartialEq, Eq)]
pub struct DrmCapturePipelineConfig {
    pub connector_id: NonZeroU32,
    pub output_index: u32,
    pub session_id: String,
    pub device_instance: String,
    pub node_description: String,
    pub video_profile_id: String,
    pub video_bitrate: NonZeroU64,
    /// Media cadence, independent of the display mode's refresh rate.
    pub capture_rate_hz: NonZeroU32,
    pub pool_size: NonZeroU32,
    pub request_capacity: NonZeroU32,
    pub pool_byte_limit: NonZeroU64,
    pub heap_path: String,
    pub poll_interval_ns: u64,
    pub shutdown_timeout_ns: u64,
}

/// The size of captured images.
#[derive(Debug, Clone, Copy, PartialEq, Eq, Structural)]
pub struct Layout {
    pub width: NonZeroU32,
    pub height: NonZeroU32,
}

/// The pipeline of one display, and the generation that it captures.
#[derive(Debug)]
pub struct DrmCapturePipeline {
    pub config: DrmCapturePipelineConfig,
    pub active: Option<NonZeroU64>,
}

/// The captured images have the size of the route.
pub open spec fn fits_route(layout: Layout, mode: RoutedMode) -> bool {
    layout.width@ == mode.width && layout.height@ == mode.height
}

/// The refusal of images of another size.
pub open spec fn layout_refusal(layout: Layout, mode: RoutedMode) -> Seq<char> {
    "capture output is "@ + decimal(layout.width@ as nat) + "x"@ + decimal(
        layout.height@ as nat,
    ) + "; active route is "@ + decimal(mode.width as nat) + "x"@ + decimal(mode.height as nat)
}

pub fn require_route_layout(layout: Layout, request: MediaStartRequest) -> (result: Result<
    (),
    MediaPipelineError,
>)
    ensures
        result is Ok <==> fits_route(layout, request.route.mode),
        result matches Err(error) ==> error.0@ == layout_refusal(layout, request.route.mode),
{
    let mode = request.route.mode;
    if layout.width.get() != mode.width || layout.height.get() != mode.height {
        let mut text = "capture output is ".to_owned();
        push_decimal(&mut text, layout.width.get() as u64);
        text.append("x");
        push_decimal(&mut text, layout.height.get() as u64);
        text.append("; active route is ");
        push_decimal(&mut text, mode.width as u64);
        text.append("x");
        push_decimal(&mut text, mode.height as u64);
        return Err(MediaPipelineError(text));
    }
    Ok(())
}

/// An operation on the capture of a display.
#[derive(Debug, Clone, Copy, PartialEq, Eq, Structural)]
pub enum CaptureOperation {
    Open,
    Describe,
    Allocate,
    StartActor,
    Connect,
    Prepare,
    Cancel,
    StopStale,
    Activate,
    Suspend,
    Stop,
}

impl CaptureOperation {
    /// What the operation is called in a report of its failure.
    pub open spec fn name(self) -> Seq<char> {
        match self {
            CaptureOperation::Open => "open capture session"@,
            CaptureOperation::Describe => "describe capture output"@,
            CaptureOperation::Allocate => "allocate capture pool"@,
            CaptureOperation::StartActor => "start capture actor"@,
            CaptureOperation::Connect => "connect PipeWire producer"@,
            CaptureOperation::Prepare => "prepare capture video"@,
            CaptureOperation::Cancel => "cancel capture video"@,
            CaptureOperation::StopStale => "stop stale capture video"@,
            CaptureOperation::Activate => "activate capture video"@,
            CaptureOperation::Suspend => "suspend capture video"@,
            CaptureOperation::Stop => "stop capture video"@,
        }
    }

    pub fn label(self) -> (label: &'static str)
        ensures
            label@ == self.name(),
    {
        match self {
            CaptureOperation::Open => "open capture session",
            CaptureOperation::Describe => "describe capture output",
            CaptureOperation::Allocate => "allocate capture pool",
            CaptureOperation::StartActor => "start capture actor",
            CaptureOperation::Connect => "connect PipeWire producer",
            CaptureOperation::Prepare => "prepare capture video",
            CaptureOperation::Cancel => "cancel capture video",
            CaptureOperation::StopStale => "stop stale capture video",
            CaptureOperation::Activate => "activate capture video",
            CaptureOperation::Suspend => "suspend capture video",
            CaptureOperation::Stop => "stop capture video",
        }
    }

    /// The report of a failure.
    pub open spec fn failure(self, error: Seq<char>) -> Seq<char> {
        self.name() + ": "@ + error
    }

    pub fn failed(self, error: &str) -> (report: MediaPipelineError)
        ensures
            report.0@ == self.failure(error@),
    {
        let mut text = concat(self.label(), ": ");
        text.append(error);
        MediaPipelineError(text)
    }

    /// The result of the operation.
    pub fn finished(self, reply: Result<(), String>) -> (result: Result<(), MediaPipelineError>)
        ensures
            match reply {
                Ok(_) => result is Ok,
                Err(text) => result is Err && result->Err_0.0@ == self.failure(text@),
            },
    {
        match reply {
            Ok(()) => Ok(()),
            Err(error) => Err(self.failed(error.as_str())),
        }
    }
}

/// The media type of raw video at a cadence.
pub open spec fn capture_caps(layout: Layout, rate: NonZeroU32) -> Seq<char> {
    "video/x-raw,format=BGRx,width="@ + decimal(layout.width@ as nat) + ",height="@ + decimal(
        layout.height@ as nat,
    ) + ",framerate="@ + decimal(rate@ as nat) + "/1"@
}

/// Whether an operation on a generation is let through.
pub open spec fn permits(
    pipeline: DrmCapturePipeline,
    generation: NonZeroU64,
    result: Result<(), MediaPipelineError>,
) -> bool {
    match pipeline.active {
        None => result is Err && result->Err_0.0@ == "no capture generation is active"@,
        Some(active) => if active == generation {
            result is Ok
        } else {
            result is Err && result->Err_0.0@ == "capture operation requested generation "@
                + decimal(generation@ as nat) + "; active generation is "@ + decimal(
                active@ as nat,
            )
        },
    }
}

/// Whether a generation can be started.
pub open spec fn start_permitted(
    pipeline: DrmCapturePipeline,
    request: MediaStartRequest,
    result: Result<NonZeroU64, MediaPipelineError>,
) -> bool {
    &&& result is Ok <==> pipeline.active is None && setup_of(pipeline.config).sound()
        && request.media_generation != 0
    &&& result matches Ok(generation) ==> generation@ == request.media_generation
    &&& result matches Err(error) ==> error.0@ == (if pipeline.active is Some {
        "a previous capture generation still requires cleanup"@
    } else if !setup_of(pipeline.config).sound() {
        "invalid capture pool, queue, or timing configuration"@
    } else {
        "media generation must be nonzero"@
    })
}

/// How a generation was given up.
pub open spec fn stops_generation(
    before: DrmCapturePipeline,
    generation: NonZeroU64,
    after: DrmCapturePipeline,
    result: Result<bool, MediaPipelineError>,
) -> bool {
    &&& after.config == before.config
    &&& match before.active {
        None => result == Ok::<bool, MediaPipelineError>(false) && after.active
            is None,
        Some(active) => if active == generation {
            result == Ok::<bool, MediaPipelineError>(true) && after.active is None
        } else {
            &&& result is Err
            &&& result->Err_0.0@ == "capture stop requested generation "@ + decimal(
                generation@ as nat,
            ) + "; active generation is "@ + decimal(active@ as nat)
            &&& after.active == before.active
        },
    }
}

impl DrmCapturePipeline {
    pub fn new(config: DrmCapturePipelineConfig) -> (pipeline: Self)
        ensures
            pipeline.config == config,
            pipeline.active is None,
    {
        DrmCapturePipeline { config, active: None }
    }

    /// Check that an operation is about the active generation.
    pub fn active(&self, generation: NonZeroU64) -> (result: Result<(), MediaPipelineError>)
        ensures
            permits(*self, generation, result),
    {
        match self.active {
            None => Err(MediaPipelineError::new("no capture generation is active")),
            Some(active) => {
                if active == generation {
                    return Ok(());
                }
                let mut text = "capture operation requested generation ".to_owned();
                push_decimal(&mut text, generation.get());
                text.append("; active generation is ");
                push_decimal(&mut text, active.get());
                Err(MediaPipelineError(text))
            },
        }
    }

    /// Admit a start: nothing is active, the policy is sound, and the request
    /// names a generation.
    pub fn begin_start(&self, request: MediaStartRequest) -> (result: Result<
        NonZeroU64,
        MediaPipelineError,
    >)
        ensures
            start_permitted(*self, request, result),
    {
        if self.active.is_some() {
            return Err(
                MediaPipelineError::new("a previous capture generation still requires cleanup"),
            );
        }
        let setup = SetupConfig::from_pipeline(&self.config);
        if let Err(error) = setup.validate() {
            return Err(error);
        }
        match NonZeroU64::new(request.media_generation) {
            Some(generation) => Ok(generation),
            None => Err(MediaPipelineError::new("media generation must be nonzero")),
        }
    }

    fn media_target(
        &self,
        node_name: String,
        object_serial: NonZeroU64,
        layout: Layout,
        generation: NonZeroU64,
    ) -> (target: DeviceMediaTarget)
        ensures
            target.kind == DeviceMediaKind::Video,
            target.node_name == node_name,
            target.object_serial == object_serial,
            target.session_id == self.config.session_id,
            target.device_instance == self.config.device_instance,
            target.connector_id == self.config.connector_id,
            target.output_index == self.config.output_index,
            target.media_generation == generation,
            target.render_device is None,
            target.caps@ == capture_caps(layout, self.config.capture_rate_hz),
    {
        let mut caps = "video/x-raw,format=BGRx,width=".to_owned();
        push_decimal(&mut caps, layout.width.get() as u64);
        caps.append(",height=");
        push_decimal(&mut caps, layout.height.get() as u64);
        caps.append(",framerate=");
        push_decimal(&mut caps, self.config.capture_rate_hz.get() as u64);
        caps.append("/1");
        DeviceMediaTarget {
            kind: DeviceMediaKind::Video,
            node_name,
            object_serial,
            session_id: self.config.session_id.clone(),
            device_instance: self.config.device_instance.clone(),
            connector_id: self.config.connector_id,
            output_index: self.config.output_index,
            media_generation: generation,
            render_device: None,
            caps,
        }
    }

    /// Take in a video node that is kept: the generation is active from now on.
    pub(crate) fn keep(
        &mut self,
        request: MediaStartRequest,
        generation: NonZeroU64,
        node_name: String,
        object_serial: NonZeroU64,
        layout: Layout,
    ) -> (prepared: PreparedCaptureMedia)
        ensures
            final(self).active == Some(generation),
            final(self).config == old(self).config,
            prepared.media_generation == generation,
            prepared.audio_target is None,
            prepared.configuration == (DeviceMediaConfiguration {
                video_profile_id: old(self).config.video_profile_id,
                audio_profile_id: None,
                mode: request.route.mode,
                video_bitrate: old(self).config.video_bitrate,
            }),
            prepared.video_target.kind == DeviceMediaKind::Video,
            prepared.video_target.node_name == node_name,
            prepared.video_target.object_serial == object_serial,
            prepared.video_target.session_id == old(self).config.session_id,
            prepared.video_target.device_instance == old(self).config.device_instance,
            prepared.video_target.connector_id == old(self).config.connector_id,
            prepared.video_target.output_index == old(self).config.output_index,
            prepared.video_target.media_generation == generation,
            prepared.video_target.render_device is None,
            prepared.video_target.caps@ == capture_caps(
                layout,
                old(self).config.capture_rate_hz,
            ),
    {
        let video_target = self.media_target(node_name, object_serial, layout, generation);
        self.active = Some(generation);
        PreparedCaptureMedia {
            media_generation: generation,
            video_target,
            audio_target: None,
            configuration: DeviceMediaConfiguration {
                video_profile_id: self.config.video_profile_id.clone(),
                audio_profile_id: None,
                mode: request.route.mode,
                video_bitrate: self.config.video_bitrate,
            },
        }
    }

    /// Take the generation that is to be stopped: whether there is one. One
    /// that is not the active one is refused, and stays.
    pub fn stop_active(&mut self, generation: NonZeroU64) -> (result: Result<
        bool,
        MediaPipelineError,
    >)
        ensures
            stops_generation(*old(self), generation, *final(self), result),
    {
        match self.active {
            None => Ok(false),
            Some(active) => {
                if active != generation {
                    let mut text = "capture stop requested generation ".to_owned();
                    push_decimal(&mut text, generation.get());
                    text.append("; active generation is ");
                    push_decimal(&mut text, active.get());
                    return Err(MediaPipelineError(text));
                }
                self.active = None;
                Ok(true)
            },
        }
    }

    /// Take whatever generation is active: whether there is one to stop.
    pub fn shutdown(&mut self) -> (stops: bool)
        ensures
            final(self).config == old(self).config,
            final(self).active is None,
            stops == (old(self).active is Some),
    {
        let stops = self.active.is_some();
        self.active = None;
        stops
    }
}

/// The setup policy of a pipeline.
pub open spec fn setup_of(config: DrmCapturePipelineConfig) -> SetupConfig {
    SetupConfig {
        pool_size: config.pool_size,
        request_capacity: config.request_capacity,
        pool_byte_limit: config.pool_byte_limit,
        heap_path: config.heap_path,
        poll_interval_ns: config.poll_interval_ns,
        shutdown_timeout_ns: config.shutdown_timeout_ns,
    }
}

/// Operations are for the generation that is active, and for no other.
pub proof fn operations_are_for_the_active_generation(
    pipeline: DrmCapturePipeline,
    generation: NonZeroU64,
    result: Result<(), MediaPipelineError>,
)
    requires
        permits(pipeline, generation, result),
    ensures
        result is Ok <==> pipeline.active == Some(generation),
{
}

/// A generation starts only while none is active, with a number and on sound
/// settings: 2 to 32 buffers, no more requests than buffers, and a pace and a bound
/// for its end.
pub proof fn generations_start_on_sound_settings(
    pipeline: DrmCapturePipeline,
    request: MediaStartRequest,
    result: Result<NonZeroU64, MediaPipelineError>,
)
    requires
        start_permitted(pipeline, request, result),
    ensures
        result is Ok <==> {
            &&& pipeline.active is None
            &&& 2 <= pipeline.config.pool_size@ <= 32
            &&& pipeline.config.request_capacity@ <= pipeline.config.pool_size@
            &&& pipeline.config.poll_interval_ns > 0
            &&& pipeline.config.shutdown_timeout_ns > 0
            &&& request.media_generation > 0
        },
        result is Ok ==> result->Ok_0@ == request.media_generation,
{
}

/// The active generation is given up once, and by its own number only; with none
/// there is nothing to do.
pub proof fn generations_are_given_up_once(
    before: DrmCapturePipeline,
    generation: NonZeroU64,
    after: DrmCapturePipeline,
    result: Result<bool, MediaPipelineError>,
)
    requires
        stops_generation(before, generation, after, result),
    ensures
        after.config == before.config,
        result is Err <==> before.active is Some && before.active->0 != generation,
        result is Ok ==> (result->Ok_0 <==> before.active == Some(generation)),
        result is Ok ==> after.active is None,
        result is Err ==> after.active == before.active,
{
}

/// What is captured has the size of the route in both directions, whatever the rate.
pub proof fn captures_have_the_size_of_their_route(layout: Layout, mode: RoutedMode)
    ensures
        fits_route(layout, mode) <==> layout.width@ == mode.width && layout.height@ == mode.height,
        layout.width@ != mode.width || layout.height@ != mode.height ==> !fits_route(layout, mode),
{
}

/// The format of a capture names its width, its height and its rate, in this order
/// and in decimal digits.
pub proof fn formats_name_size_and_rate(layout: Layout, rate: NonZeroU32)
    ensures
        ({
            let caps = capture_caps(layout, rate);
            let width = decimal(layout.width@ as nat);
            let height = decimal(layout.height@ as nat);
            let pace = decimal(rate@ as nat);
            &&& caps.take(30) == "video/x-raw,format=BGRx,width="@
            &&& caps.subrange(30, 30 + width.len() as int) == width
            &&& caps.subrange(30 + width.len() as int, 38 + width.len() as int) == ",height="@
            &&& caps.subrange(
                38 + width.len() as int,
                38 + width.len() as int + height.len() as int,
            ) == height
            &&& caps.skip(38 + width.len() as int + height.len() as int) == ",framerate="@ + pace
                + "/1"@
        }),
{
    reveal_strlit("video/x-raw,format=BGRx,width=");
    reveal_strlit(",height=");
    reveal_strlit(",framerate=");
    reveal_strlit("/1");
    let caps = capture_caps(layout, rate);
    let width = decimal(layout.width@ as nat);
    let height = decimal(layout.height@ as nat);
    let pace = decimal(rate@ as nat);
    assert(caps.take(30) =~= "video/x-raw,format=BGRx,width="@);
    assert(caps.subrange(30, 30 + width.len() as int) =~= width);
    assert(caps.subrange(30 + width.len() as int, 38 + width.len() as int) =~= ",height="@);
    assert(caps.subrange(
        38 + width.len() as int,
        38 + width.len() as int + height.len() as int,
    ) =~= height);
    assert(caps.skip(38 + width.len() as int + height.len() as int) =~= ",framerate="@ + pace
        + "/1"@);
}

/// The report of a failed operation begins with its name and ends in the reason.
pub proof fn reports_name_the_operation(operation: CaptureOperation, reason: Seq<char>)
    ensures
        operation.name().is_prefix_of(operation.failure(reason)),
        operation.failure(reason).len() == operation.name().len() + 2 + reason.len(),
        operation.failure(reason).skip(operation.failure(reason).len() - reason.len()) == reason,
{
    reveal_strlit(": ");
    let text = operation.failure(reason);
    assert(text.skip(text.len() - reason.len()) =~= reason);
}

/// The name of an operation says what it does.
pub proof fn operations_are_named_by_their_work(value: CaptureOperation)
    ensures
        value is Open ==> "open capture session"@.is_prefix_of(value.name()),
        value is Describe ==> "describe capture output"@.is_prefix_of(value.name()),
        value is Allocate ==> "allocate capture pool"@.is_prefix_of(value.name()),
        value is StartActor ==> "start capture actor"@.is_prefix_of(value.name()),
        value is Connect ==> "connect PipeWire producer"@.is_prefix_of(value.name()),
        value is Prepare ==> "prepare capture video"@.is_prefix_of(value.name()),
        value is Cancel ==> "cancel capture video"@.is_prefix_of(value.name()),
        value is StopStale ==> "stop stale capture video"@.is_prefix_of(value.name()),
        value is Activate ==> "activate capture video"@.is_prefix_of(value.name()),
        value is Suspend ==> "suspend capture video"@.is_prefix_of(value.name()),
        value is Stop ==> "stop capture video"@.is_prefix_of(value.name()),
{
    let text = value.name();
    if value is Open {
        assert("open capture session"@ =~= text.subrange(0, "open capture session"@.len() as int));
    }
    if value is Describe {
        assert("describe capture output"@ =~= text.subrange(
            0,
            "describe capture output"@.len() as int,
        ));
    }
    if value is Allocate {
        assert("allocate capture pool"@ =~= text.subrange(
            0,
            "allocate capture pool"@.len() as int,
        ));
    }
    if value is StartActor {
        assert("start capture actor"@ =~= text.subrange(0, "start capture actor"@.len() as int));
    }
    if value is Connect {
        assert("connect PipeWire producer"@ =~= text.subrange(
            0,
            "connect PipeWire producer"@.len() as int,
        ));
    }
    if value is Prepare {
        assert("prepare capture video"@ =~= text.subrange(
            0,
            "prepare capture video"@.len() as int,
        ));
    }
    if value is Cancel {
        assert("cancel capture video"@ =~= text.subrange(0, "cancel capture video"@.len() as int));
    }
    if value is StopStale {
        assert("stop stale capture video"@ =~= text.subrange(
            0,
            "stop stale capture video"@.len() as int,
        ));
    }
    if value is Activate {
        assert("activate capture video"@ =~= text.subrange(
            0,
            "activate capture video"@.len() as int,
        ));
    }
    if value is Suspend {
        assert("suspend capture video"@ =~= text.subrange(
            0,
            "suspend capture video"@.len() as int,
        ));
    }
    if value is Stop {
        assert("stop capture video"@ =~= text.subrange(0, "stop capture video"@.len() as int));
    }
}

/// A refused start says the first thing that is in its way.
pub proof fn refused_generations_say_what_is_in_the_way(
    pipeline: DrmCapturePipeline,
    request: MediaStartRequest,
    result: Result<NonZeroU64, MediaPipelineError>,
)
    requires
        start_permitted(pipeline, request, result),
        result is Err,
    ensures
        pipeline.active is Some ==> result->Err_0.0@
            == "a previous capture generation still requires cleanup"@,
        pipeline.active is None && !(2 <= pipeline.config.pool_size@ <= 32
            && pipeline.config.request_capacity@ <= pipeline.config.pool_size@
            && pipeline.config.poll_interval_ns > 0 && pipeline.config.shutdown_timeout_ns > 0)
            ==> result->Err_0.0@ == "invalid capture pool, queue, or timing configuration"@,
        pipeline.active is None && 2 <= pipeline.config.pool_size@ <= 32
            && pipeline.config.request_capacity@ <= pipeline.config.pool_size@
            && pipeline.config.poll_interval_ns > 0 && pipeline.config.shutdown_timeout_ns > 0
            ==> result->Err_0.0@ == "media generation must be nonzero"@,
{
}

/// The text of an output of another size names the size of the capture, then that of the route,
/// each with the width before the height.
pub proof fn size_refusals_name_both_sizes(layout: Layout, mode: RoutedMode)
    ensures
        ({
            let text = layout_refusal(layout, mode);
            let width = decimal(layout.width@ as nat);
            let height = decimal(layout.height@ as nat);
            let across = decimal(mode.width as nat);
            let down = decimal(mode.height as nat);
            &&& text.subrange(18, 18 + width.len() as int) == width
            &&& text.subrange(
                19 + width.len() as int,
                19 + width.len() as int + height.len() as int,
            ) == height
            &&& text.skip(text.len() - down.len()) == down
            &&& text.subrange(
                text.len() - down.len() - 1 - across.len(),
                text.len() - down.len() - 1,
            ) == across
        }),
{
    reveal_strlit("capture output is ");
    reveal_strlit("x");
    let text = layout_refusal(layout, mode);
    let width = decimal(layout.width@ as nat);
    let height = decimal(layout.height@ as nat);
    let across = decimal(mode.width as nat);
    let down = decimal(mode.height as nat);
    assert(text.subrange(18, 18 + width.len() as int) =~= width);
    assert(text.subrange(19 + width.len() as int, 19 + width.len() as int + height.len() as int)
        =~= height);
    assert(text.skip(text.len() - down.len()) =~= down);
    assert(text.subrange(text.len() - down.len() - 1 - across.len(), text.len() - down.len() - 1)
        =~= across);
}

} // verus!
