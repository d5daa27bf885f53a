//! Values at the boundary of one prepared device session.

use crate::display_state::RoutedMode;
use crate::nonzero::{NonZeroU32, NonZeroU64};
use vstd::prelude::*;

verus! {

#[derive(Debug, Clone, Copy, PartialEq, Eq, Structural)]
pub enum DeviceMediaKind {
    Video,
    Audio,
}

/// The device node that renders for a media target.
#[derive(Debug, Clone, Copy, PartialEq, Eq, Structural)]
pub struct RenderDeviceIdentity {
    pub major: u32,
    pub minor: u32,
}

/// Exact PipeWire object that a backend endpoint is authorized to consume.
#[derive(Debug, PartialEq, Eq)]
pub struct DeviceMediaTarget {
    pub kind: DeviceMediaKind,
    pub node_name: String,
    pub object_serial: NonZeroU64,
    pub session_id: String,
    pub device_instance: String,
    pub connector_id: NonZeroU32,
    pub output_index: u32,
    pub media_generation: NonZeroU64,
    pub render_device: Option<RenderDeviceIdentity>,
    pub caps: String,
}

#[derive(Debug, PartialEq, Eq)]
pub struct DeviceMediaConfiguration {
    pub video_profile_id: String,
    pub audio_profile_id: Option<String>,
    pub mode: RoutedMode,
    pub video_bitrate: NonZeroU64,
}

/// Complete authority transfer for one immutable media generation: the targets
/// in the order of their connections, video first.
#[derive(Debug, PartialEq, Eq)]
pub struct DeviceMediaSetup {
    pub media_generation: NonZeroU64,
    pub targets: Vec<DeviceMediaTarget>,
    pub configuration: DeviceMediaConfiguration,
}

#[derive(Debug, Clone, Copy, PartialEq, Eq, Structural)]
pub enum DeviceMediaSuspendReason {
    OutputDisabled,
    ModeChanged,
    DeviceUnavailable,
    SessionInactive,
}

#[derive(Debug, Clone, Copy, PartialEq, Eq, Structural)]
pub enum DeviceMediaStopReason {
    OutputDisabled,
    ModeChanged,
    DisplayRemoved,
    BackendShutdown,
    TransportFailure,
}

#[derive(Debug, Clone, Copy, PartialEq, Eq, Structural)]
pub enum DeviceSessionStopReason {
    DisplayRemoved,
    DaemonShutdown,
}

/// The terminal event of one device session.
#[derive(Debug, PartialEq, Eq)]
pub struct DeviceSessionEvent {
    pub session_generation: NonZeroU64,
    pub error: String,
}

/// Why a device-session operation failed.
#[derive(Debug, PartialEq, Eq)]
pub struct DeviceSessionError(pub String);

impl DeviceSessionError {
    pub fn new(message: &str) -> (error: Self)
        ensures
            error.0@ == message@,
    {
        DeviceSessionError(message.to_owned())
    }

    /// The error as one line.
    pub fn to_text(&self) -> (text: String)
        ensures
            text@ == self.0@,
    {
        self.0.clone()
    }
}

} // verus!
