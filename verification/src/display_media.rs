//! The selected capture capability of a display.

use crate::drm_capture_pipeline::DrmCapturePipelineConfig;
use crate::nonzero::{NonZeroU32, NonZeroU64};
use vstd::prelude::*;

verus! {

/// The modifier of images in rows, one after the other.
pub const DRM_FORMAT_MOD_LINEAR: u64 = 0;

/// Explicit source of media images, independent of who authorizes it.
///
/// Final-image capture does not select the display's renderer. Neither choice
/// permits switching to the other after an error.
#[derive(Debug, Clone, Copy, PartialEq, Eq, Structural)]
pub enum CaptureSource {
    Renderer,
    FinalImage,
}

impl Default for CaptureSource {
    fn default() -> (source: Self)
        ensures
            source == CaptureSource::Renderer,
    {
        CaptureSource::Renderer
    }
}

/// What a display's media pipeline is made for.
#[derive(Debug, PartialEq, Eq)]
pub struct DisplayMediaConfig {
    pub connector_id: NonZeroU32,
    pub output_index: u32,
    pub session_id: String,
    pub device_instance: String,
    pub node_description: String,
    pub video_profile_id: String,
    pub video_bitrate: NonZeroU64,
    pub capture_rate_hz: NonZeroU32,
}

/// Identity and resource policy of a pipeline that asks the renderer.
#[derive(Debug, PartialEq, Eq)]
pub struct RendererCapturePipelineConfig {
    pub connector_id: NonZeroU32,
    pub output_index: u32,
    pub session_id: String,
    pub device_instance: String,
    pub node_description: String,
    pub video_profile_id: String,
    pub video_bitrate: NonZeroU64,
    pub capture_rate_hz: NonZeroU32,
    pub output_modifier: u64,
    pub private_capacity: usize,
    pub output_capacity: usize,
}

/// The pipeline to make.
#[derive(Debug, PartialEq, Eq)]
pub enum PipelinePlan {
    Renderer(RendererCapturePipelineConfig),
    FinalImage(DrmCapturePipelineConfig),
}

/// The plan makes the pipeline of the source, for what was asked, with the
/// fixed policy of its kind.
pub open spec fn plans(plan: PipelinePlan, source: CaptureSource, config: DisplayMediaConfig) -> bool {
    match plan {
        PipelinePlan::Renderer(renderer) => {
            &&& source == CaptureSource::Renderer
            &&& renderer == (RendererCapturePipelineConfig {
                connector_id: config.connector_id,
                output_index: config.output_index,
                session_id: config.session_id,
                device_instance: config.device_instance,
                node_description: config.node_description,
                video_profile_id: config.video_profile_id,
                video_bitrate: config.video_bitrate,
                capture_rate_hz: config.capture_rate_hz,
                output_modifier: DRM_FORMAT_MOD_LINEAR,
                private_capacity: 3,
                output_capacity: 4,
            })
        },
        PipelinePlan::FinalImage(capture) => {
            &&& source == CaptureSource::FinalImage
            &&& capture.connector_id == config.connector_id
            &&& capture.output_index == config.output_index
            &&& capture.session_id == config.session_id
            &&& capture.device_instance == config.device_instance
            &&& capture.node_description == config.node_description
            &&& capture.video_profile_id == config.video_profile_id
            &&& capture.video_bitrate == config.video_bitrate
            &&& capture.capture_rate_hz == config.capture_rate_hz
            &&& capture.pool_size@ == 4
            &&& capture.request_capacity@ == 3
            &&& capture.pool_byte_limit@ == 134_217_728
            &&& capture.heap_path@ == "/dev/dma_heap/system"@
            &&& capture.poll_interval_ns == 2_000_000
            &&& capture.shutdown_timeout_ns == 5_000_000_000
        },
    }
}

/// The pipeline for a source. The other source is never taken instead.
pub fn create_pipeline(source: CaptureSource, config: DisplayMediaConfig) -> (plan: PipelinePlan)
    ensures
        plans(plan, source, config),
{
    match source {
        CaptureSource::Renderer => PipelinePlan::Renderer(
            RendererCapturePipelineConfig {
                connector_id: config.connector_id,
                output_index: config.output_index,
                session_id: config.session_id,
                device_instance: config.device_instance,
                node_description: config.node_description,
                video_profile_id: config.video_profile_id,
                video_bitrate: config.video_bitrate,
                capture_rate_hz: config.capture_rate_hz,
                output_modifier: DRM_FORMAT_MOD_LINEAR,
                private_capacity: 3,
                output_capacity: 4,
            },
        ),
        CaptureSource::FinalImage => PipelinePlan::FinalImage(
            DrmCapturePipelineConfig {
                connector_id: config.connector_id,
                output_index: config.output_index,
                session_id: config.session_id,
                device_instance: config.device_instance,
                node_description: config.node_description,
                video_profile_id: config.video_profile_id,
                video_bitrate: config.video_bitrate,
                capture_rate_hz: config.capture_rate_hz,
                pool_size: NonZeroU32::known(4),
                request_capacity: NonZeroU32::known(3),
                pool_byte_limit: NonZeroU64::known(134_217_728),
                heap_path: "/dev/dma_heap/system".to_owned(),
                poll_interval_ns: 2_000_000,
                shutdown_timeout_ns: 5_000_000_000,
            },
        ),
    }
}

/// The result of giving up a media capability that was not used: a renderer's
/// own, and success for final images.
pub fn release(source: CaptureSource, renderer: Result<(), String>) -> (result: Result<(), String>)
    ensures
        match source {
            CaptureSource::Renderer => result == renderer,
            CaptureSource::FinalImage => result is Ok,
        },
{
    match source {
        CaptureSource::Renderer => renderer,
        CaptureSource::FinalImage => Ok(()),
    }
}

/// The policy for final images is one that a setup accepts.
pub proof fn final_image_plans_are_sound(plan: PipelinePlan, config: DisplayMediaConfig)
    requires
        plans(plan, CaptureSource::FinalImage, config),
    ensures
        plan is FinalImage,
        crate::drm_capture_pipeline::setup_of(plan->FinalImage_0).sound(),
{
}

/// A display is captured from the source that was chosen, and its pipeline has the
/// place, the names and the rates of the display.
pub proof fn pipelines_have_the_settings_of_their_display(
    plan: PipelinePlan,
    source: CaptureSource,
    config: DisplayMediaConfig,
)
    requires
        plans(plan, source, config),
    ensures
        plan is Renderer <==> source is Renderer,
        plan is FinalImage <==> source is FinalImage,
        plan matches PipelinePlan::Renderer(pipeline) ==> {
            &&& pipeline.connector_id == config.connector_id
            &&& pipeline.output_index == config.output_index
            &&& pipeline.session_id == config.session_id
            &&& pipeline.device_instance == config.device_instance
            &&& pipeline.node_description == config.node_description
            &&& pipeline.video_profile_id == config.video_profile_id
            &&& pipeline.video_bitrate == config.video_bitrate
            &&& pipeline.capture_rate_hz == config.capture_rate_hz
            &&& pipeline.output_modifier == 0
            &&& 0 < pipeline.private_capacity < pipeline.output_capacity == 4
            &&& pipeline.private_capacity == 3
        },
        plan matches PipelinePlan::FinalImage(pipeline) ==> {
            &&& pipeline.connector_id == config.connector_id
            &&& pipeline.output_index == config.output_index
            &&& pipeline.session_id == config.session_id
            &&& pipeline.device_instance == config.device_instance
            &&& pipeline.node_description == config.node_description
            &&& pipeline.video_profile_id == config.video_profile_id
            &&& pipeline.video_bitrate == config.video_bitrate
            &&& pipeline.capture_rate_hz == config.capture_rate_hz
            &&& pipeline.request_capacity@ == 3
            &&& pipeline.pool_size@ == pipeline.request_capacity@ + 1
            &&& pipeline.pool_byte_limit@ == 128 * 1024 * 1024
            &&& pipeline.heap_path@ == "/dev/dma_heap/system"@
            &&& pipeline.poll_interval_ns == 2 * 1_000_000
            &&& pipeline.shutdown_timeout_ns == 5 * 1_000_000_000
        },
{
}

} // verus!
