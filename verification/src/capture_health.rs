//! Health of one capture generation.

use crate::kernel_display_with_capture::CaptureEvent;
use crate::media_pipeline_port::MediaPipelineError;
use crate::nonzero::NonZeroU64;
use crate::text::concat;
use vstd::prelude::*;

verus! {

/// What the owner of a capture generation shows of itself.
#[derive(Debug, PartialEq, Eq)]
pub enum HealthSignal {
    /// The watch was cancelled.
    Cancelled,
    Healthy,
    Failed(String),
    /// The owner is gone.
    Closed,
}

/// A watch over the owner of a capture generation. It reports at most one
/// failure.
#[derive(Debug)]
pub struct CaptureMonitor {
    pub media_generation: NonZeroU64,
    /// What the loss of the owner is called.
    pub closed: &'static str,
    pub ended: bool,
}

/// The report that a signal makes, if it makes one.
pub open spec fn reports(
    monitor: CaptureMonitor,
    signal: HealthSignal,
    report: Option<CaptureEvent>,
) -> bool {
    if monitor.ended {
        report is None
    } else {
        match signal {
            HealthSignal::Cancelled | HealthSignal::Healthy => report is None,
            HealthSignal::Failed(error) => report == Some(
                CaptureEvent::Failed { media_generation: monitor.media_generation, error },
            ),
            HealthSignal::Closed => report matches Some(
                CaptureEvent::Failed { media_generation, error },
            ) && media_generation == monitor.media_generation && error@ == monitor.closed@,
        }
    }
}

/// The watch after a signal.
pub open spec fn watched(monitor: CaptureMonitor, signal: HealthSignal) -> CaptureMonitor {
    CaptureMonitor { ended: monitor.ended || !(signal is Healthy), ..monitor }
}

impl CaptureMonitor {
    /// Watch over a generation.
    pub fn watch(media_generation: NonZeroU64, closed: &'static str) -> (monitor: Self)
        ensures
            monitor == (CaptureMonitor { media_generation, closed, ended: false }),
    {
        CaptureMonitor { media_generation, closed, ended: false }
    }

    /// Take in a signal. The first failure ends the watch, as a cancellation
    /// does; the loss of the owner is a failure too.
    pub fn observe(&mut self, signal: HealthSignal) -> (report: Option<CaptureEvent>)
        ensures
            reports(*old(self), signal, report),
            *final(self) == watched(*old(self), signal),
    {
        if self.ended {
            return None;
        }
        match signal {
            HealthSignal::Healthy => None,
            HealthSignal::Cancelled => {
                self.ended = true;
                None
            },
            HealthSignal::Failed(error) => {
                self.ended = true;
                Some(CaptureEvent::Failed { media_generation: self.media_generation, error })
            },
            HealthSignal::Closed => {
                self.ended = true;
                Some(
                    CaptureEvent::Failed {
                        media_generation: self.media_generation,
                        error: self.closed.to_owned(),
                    },
                )
            },
        }
    }

    /// Cancel the watch, and tell what came of its task.
    pub fn shutdown(&mut self, joined: Result<(), String>) -> (result: Result<
        (),
        MediaPipelineError,
    >)
        ensures
            *final(self) == (CaptureMonitor { ended: true, ..*old(self) }),
            match joined {
                Ok(_) => result is Ok,
                Err(text) => result is Err && result->Err_0.0@ == "join capture monitor: "@ + text@,
            },
    {
        self.ended = true;
        match joined {
            Ok(()) => Ok(()),
            Err(text) => Err(MediaPipelineError(concat("join capture monitor: ", text.as_str()))),
        }
    }
}

/// A watch that has reported, or was cancelled, reports nothing more.
pub proof fn ended_watches_are_silent(
    monitor: CaptureMonitor,
    signal: HealthSignal,
    report: Option<CaptureEvent>,
)
    requires
        monitor.ended,
        reports(monitor, signal, report),
    ensures
        report is None,
{
}

/// A watch reports the first failure of its owner, or its loss, in its own
/// generation, and nothing after that.
pub proof fn the_first_failure_is_reported(
    monitor: CaptureMonitor,
    signal: HealthSignal,
    report: Option<CaptureEvent>,
    later: HealthSignal,
    after: Option<CaptureEvent>,
)
    requires
        reports(monitor, signal, report),
        reports(watched(monitor, signal), later, after),
    ensures
        report is Some <==> !monitor.ended && (signal is Failed || signal is Closed),
        report is Some ==> report->0 is Failed && report->0->Failed_media_generation
            == monitor.media_generation,
        report is Some && signal is Failed ==> report->0->Failed_error == signal->Failed_0,
        report is Some && signal is Closed ==> report->0->Failed_error@ == monitor.closed@,
        !(signal is Healthy) ==> after is None,
        signal is Healthy ==> watched(monitor, signal) == monitor,
        watched(monitor, signal).media_generation == monitor.media_generation,
{
}

} // verus!
