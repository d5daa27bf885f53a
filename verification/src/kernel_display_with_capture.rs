//! A kernel display whose events include the health of its capture.

use crate::kernel_display_port::{KernelDisplayEvent, KernelEventView};
use crate::nonzero::NonZeroU64;
use vstd::prelude::*;

verus! {

/// What a capture pipeline reports by itself.
#[derive(Debug, PartialEq, Eq)]
pub enum CaptureEvent {
    Failed { media_generation: NonZeroU64, error: String },
}

/// Whether the capture pipeline of a display still reports.
#[derive(Debug, Clone, Copy, PartialEq, Eq, Structural)]
pub struct KernelDisplayWithCapture {
    pub capture_events: bool,
}

/// How an event of the capture, or the end of its events, was taken in.
pub open spec fn maps_capture_event(
    before: KernelDisplayWithCapture,
    event: Option<CaptureEvent>,
    after: KernelDisplayWithCapture,
    mapped: KernelDisplayEvent,
) -> bool {
    match event {
        Some(CaptureEvent::Failed { media_generation, error }) => {
            &&& mapped@ == (KernelEventView::MediaFailed {
                media_generation: Some(media_generation),
                error: error@,
            })
            &&& after == before
        },
        None => {
            &&& mapped@ == (KernelEventView::MediaFailed {
                media_generation: None,
                error: "capture event stream ended"@,
            })
            &&& !after.capture_events
        },
    }
}

impl KernelDisplayWithCapture {
    pub fn new() -> (display: Self)
        ensures
            display.capture_events,
    {
        KernelDisplayWithCapture { capture_events: true }
    }

    /// The display's event for one of its capture pipeline; the end of those
    /// events is told once, and the display goes on without them.
    pub fn capture_event(&mut self, event: Option<CaptureEvent>) -> (mapped: KernelDisplayEvent)
        ensures
            maps_capture_event(*old(self), event, *final(self), mapped),
    {
        match event {
            Some(CaptureEvent::Failed { media_generation, error }) => {
                KernelDisplayEvent::MediaFailed { media_generation: Some(media_generation), error }
            },
            None => {
                self.capture_events = false;
                KernelDisplayEvent::MediaFailed {
                    media_generation: None,
                    error: "capture event stream ended".to_owned(),
                }
            },
        }
    }
}

/// A failure of the capture is told with its generation and its reason. The end of
/// its events is a failure of no generation, and they are not awaited any more.
pub proof fn capture_failures_are_told(
    before: KernelDisplayWithCapture,
    event: Option<CaptureEvent>,
    after: KernelDisplayWithCapture,
    mapped: KernelDisplayEvent,
)
    requires
        maps_capture_event(before, event, after, mapped),
    ensures
        mapped is MediaFailed,
        event is Some ==> mapped->media_generation == Some(event->0->Failed_media_generation)
            && mapped->MediaFailed_error@ == event->0->Failed_error@ && after == before,
        event is None ==> mapped->media_generation is None && !after.capture_events,
{
}

} // verus!
