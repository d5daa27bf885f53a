//! Values at the boundary of capture and media construction.

use crate::device_session_port::{DeviceMediaConfiguration, DeviceMediaTarget};
use crate::nonzero::NonZeroU64;
use vstd::prelude::*;

verus! {

/// Exact producer objects created for one active capture generation.
#[derive(Debug, PartialEq, Eq)]
pub struct PreparedCaptureMedia {
    pub media_generation: NonZeroU64,
    pub video_target: DeviceMediaTarget,
    pub audio_target: Option<DeviceMediaTarget>,
    pub configuration: DeviceMediaConfiguration,
}

/// Why a media pipeline operation failed.
#[derive(Debug, PartialEq, Eq)]
pub struct MediaPipelineError(pub String);

impl MediaPipelineError {
    pub fn new(message: &str) -> (error: Self)
        ensures
            error.0@ == message@,
    {
        MediaPipelineError(message.to_owned())
    }

    /// The error as one line.
    pub fn to_text(&self) -> (text: String)
        ensures
            text@ == self.0@,
    {
        self.0.clone()
    }
}

} // verus!
