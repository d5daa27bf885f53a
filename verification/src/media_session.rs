//! Requests of a display's media session.

use crate::display_state::{RouteTarget, RoutedMode};
use vstd::prelude::*;

verus! {

/// The active route that a media generation shows.
#[derive(Debug, Clone, Copy, PartialEq, Eq, Structural)]
pub struct MediaRoute {
    pub route_generation: u64,
    pub target: RouteTarget,
    pub mode: RoutedMode,
}

/// A request for one media generation.
#[derive(Debug, Clone, Copy, PartialEq, Eq, Structural)]
pub struct MediaStartRequest {
    pub media_generation: u64,
    pub route: MediaRoute,
}

#[derive(Debug, Clone, Copy, PartialEq, Eq, Structural)]
pub enum MediaStopReason {
    OutputDisabled,
    ModeChanged,
    DisplayRemoved,
    BackendShutdown,
    TransportFailure,
}

#[derive(Debug, Clone, Copy, PartialEq, Eq, Structural)]
pub enum MediaSuspendReason {
    GrantUnavailable,
    DeviceUnavailable,
    SessionInactive,
}

/// Why a media operation failed.
#[derive(Debug, PartialEq, Eq)]
pub struct MediaDriverError(pub String);

impl MediaDriverError {
    pub fn new(message: &str) -> (error: Self)
        ensures
            error.0@ == message@,
    {
        MediaDriverError(message.to_owned())
    }

    /// The error as one line.
    pub fn to_text(&self) -> (text: String)
        ensures
            text@ == self.0@,
    {
        self.0.clone()
    }
}

} // verus!
