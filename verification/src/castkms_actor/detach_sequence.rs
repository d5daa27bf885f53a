//! The orderly end of an owner.

use crate::castkms_actor::actor::{detached, failure_text};
use crate::castkms_actor::cec::{teardown_cec, CecTransmitEvent};
use crate::castkms_actor::stop::labelled;
use crate::kernel_display_port::{kernel_error, KernelDisplayError};
use crate::text::{joined, texts_view};
use vstd::prelude::*;

verus! {

/// What the end of an owner waits for.
#[derive(Debug)]
pub enum DetachPhase {
    /// The generation stops.
    Stopping,
    /// The video source ends.
    EndingSource,
    /// The message that a device works on is failed at the kernel.
    FailingMessage { event: CecTransmitEvent },
    /// The remote-control transport goes offline.
    TakingOffline,
    /// The transport is unbound.
    Unbinding { offline: Result<(), String> },
    /// The monitor is detached.
    Detaching,
    Ended,
}

/// What came of detaching the monitor.
#[derive(Debug, PartialEq, Eq)]
pub enum MonitorDetach {
    Done,
    /// The task that detaches it failed.
    TaskFailed(String),
    Refused(String),
}

/// The end of an owner.
#[derive(Debug)]
pub struct CaptureDetach {
    pub phase: DetachPhase,
    /// The message that a device works on.
    pub pending: Option<CecTransmitEvent>,
    pub stopped: Result<(), KernelDisplayError>,
    pub source: Result<(), String>,
    pub message: Option<Result<(), String>>,
    pub transport: Option<(Result<(), String>, Result<(), String>)>,
    pub monitor: MonitorDetach,
}

/// What came of a phase.
#[derive(Debug)]
pub enum DetachReply {
    Stopped(Result<(), KernelDisplayError>),
    Done(Result<(), String>),
    Monitor(MonitorDetach),
}

/// The end of an owner when it begins.
pub open spec fn detach_begins(pending: Option<CecTransmitEvent>) -> CaptureDetach {
    CaptureDetach {
        phase: DetachPhase::Stopping,
        pending,
        stopped: Ok(()),
        source: Ok(()),
        message: None,
        transport: None,
        monitor: MonitorDetach::Done,
    }
}

/// The transport ends, if one is bound; the monitor comes after that.
pub open spec fn transport_phase(bound: bool) -> DetachPhase {
    if bound {
        DetachPhase::TakingOffline
    } else {
        DetachPhase::Detaching
    }
}

/// The end of an owner after a reply. Every part is tried, whatever came of the
/// others; what is not waited for changes nothing.
pub open spec fn detach_goes_on(detach: CaptureDetach, reply: DetachReply, bound: bool) -> CaptureDetach {
    match (detach.phase, reply) {
        (DetachPhase::Stopping, DetachReply::Stopped(result)) => CaptureDetach {
            phase: DetachPhase::EndingSource,
            stopped: result,
            ..detach
        },
        (DetachPhase::EndingSource, DetachReply::Done(result)) => CaptureDetach {
            phase: match detach.pending {
                Some(event) => DetachPhase::FailingMessage { event },
                None => transport_phase(bound),
            },
            pending: None,
            source: result,
            ..detach
        },
        (DetachPhase::FailingMessage { .. }, DetachReply::Done(result)) => CaptureDetach {
            phase: transport_phase(bound),
            message: Some(result),
            ..detach
        },
        (DetachPhase::TakingOffline, DetachReply::Done(result)) => CaptureDetach {
            phase: DetachPhase::Unbinding { offline: result },
            ..detach
        },
        (DetachPhase::Unbinding { offline }, DetachReply::Done(result)) => CaptureDetach {
            phase: DetachPhase::Detaching,
            transport: Some((offline, result)),
            ..detach
        },
        (DetachPhase::Detaching, DetachReply::Monitor(outcome)) => CaptureDetach {
            phase: DetachPhase::Ended,
            monitor: outcome,
            ..detach
        },
        _ => detach,
    }
}

/// What is told of the monitor.
pub open spec fn monitor_failure(outcome: MonitorDetach) -> Seq<Seq<char>> {
    match outcome {
        MonitorDetach::Done => Seq::empty(),
        MonitorDetach::TaskFailed(text) => seq![
            kernel_error("join CastKMS detach"@, text@).text(),
        ],
        MonitorDetach::Refused(text) => seq![
            kernel_error("detach grant-scoped monitor"@, text@).text(),
        ],
    }
}

/// What went wrong with remote control.
pub open spec fn cec_failures(
    message: Option<Result<(), String>>,
    transport: Option<(Result<(), String>, Result<(), String>)>,
) -> Seq<Seq<char>> {
    let failed = match message {
        Some(result) => labelled("fail pending CEC transmit: "@, result),
        None => Seq::empty(),
    };
    let ended = match transport {
        Some((offline, unbind)) => labelled("take CEC transport offline: "@, offline) + labelled(
            "unbind CEC transport: "@,
            unbind,
        ),
        None => Seq::empty(),
    };
    failed + ended
}

/// Everything that went wrong, in the order of the parts.
pub open spec fn detach_failures(detach: CaptureDetach) -> Seq<Seq<char>> {
    failure_text(detach.stopped) + labelled("shut down PipeWire source actor: "@, detach.source)
        + cec_failures(detach.message, detach.transport) + monitor_failure(detach.monitor)
}

/// The result of detaching the monitor.
pub fn monitor_detached(outcome: MonitorDetach) -> (result: Result<(), KernelDisplayError>)
    ensures
        result is Ok <==> outcome is Done,
        failure_text(result) == monitor_failure(outcome),
{
    match outcome {
        MonitorDetach::Done => Ok(()),
        MonitorDetach::TaskFailed(text) => Err(
            KernelDisplayError { operation: "join CastKMS detach", message: text },
        ),
        MonitorDetach::Refused(text) => Err(
            KernelDisplayError { operation: "detach grant-scoped monitor", message: text },
        ),
    }
}

fn after_message(bound: bool) -> (phase: DetachPhase)
    ensures
        phase == transport_phase(bound),
{
    if bound {
        DetachPhase::TakingOffline
    } else {
        DetachPhase::Detaching
    }
}

impl CaptureDetach {
    /// Begin the end of an owner, with the message that a device works on.
    pub fn begin(pending: Option<CecTransmitEvent>) -> (detach: Self)
        ensures
            detach == detach_begins(pending),
    {
        CaptureDetach {
            phase: DetachPhase::Stopping,
            pending,
            stopped: Ok(()),
            source: Ok(()),
            message: None,
            transport: None,
            monitor: MonitorDetach::Done,
        }
    }

    /// Go on after a reply. `bound` tells whether a transport is bound.
    pub fn proceed(&mut self, reply: DetachReply, bound: bool)
        ensures
            *final(self) == detach_goes_on(*old(self), reply, bound),
    {
        let mut phase = DetachPhase::Ended;
        core::mem::swap(&mut self.phase, &mut phase);
        match (phase, reply) {
            (DetachPhase::Stopping, DetachReply::Stopped(result)) => {
                self.stopped = result;
                self.phase = DetachPhase::EndingSource;
            },
            (DetachPhase::EndingSource, DetachReply::Done(result)) => {
                self.source = result;
                self.phase = match self.pending.take() {
                    Some(event) => DetachPhase::FailingMessage { event },
                    None => after_message(bound),
                };
            },
            (DetachPhase::FailingMessage { .. }, DetachReply::Done(result)) => {
                self.message = Some(result);
                self.phase = after_message(bound);
            },
            (DetachPhase::TakingOffline, DetachReply::Done(result)) => {
                self.phase = DetachPhase::Unbinding { offline: result };
            },
            (DetachPhase::Unbinding { offline }, DetachReply::Done(result)) => {
                self.transport = Some((offline, result));
                self.phase = DetachPhase::Detaching;
            },
            (DetachPhase::Detaching, DetachReply::Monitor(outcome)) => {
                self.monitor = outcome;
                self.phase = DetachPhase::Ended;
            },
            (phase, _) => {
                self.phase = phase;
            },
        }
    }

    /// The answer to whoever asked for the end: every failure is told.
    pub fn finish(self) -> (result: Result<(), KernelDisplayError>)
        ensures
            result is Ok <==> detach_failures(self).len() == 0,
            result matches Err(error) ==> error@ == kernel_error(
                "tear down CastKMS actor"@,
                joined(detach_failures(self), "; "@),
            ),
    {
        let ghost expected = cec_failures(self.message, self.transport);
        let mut failures: Vec<String> = Vec::new();
        proof {
            assert(texts_view(failures@) =~= Seq::empty());
        }
        teardown_cec(self.message, self.transport, &mut failures);
        proof {
            assert(texts_view(failures@) =~= expected);
        }
        detached(self.stopped, self.source, failures, monitor_detached(self.monitor))
    }
}

/// How far the end of an owner is.
pub open spec fn detach_position(phase: DetachPhase) -> nat {
    match phase {
        DetachPhase::Stopping => 0,
        DetachPhase::EndingSource => 1,
        DetachPhase::FailingMessage { .. } => 2,
        DetachPhase::TakingOffline => 3,
        DetachPhase::Unbinding { .. } => 4,
        DetachPhase::Detaching => 5,
        DetachPhase::Ended => 6,
    }
}

/// The generation stops first, then the source ends, then remote control, and the
/// monitor is detached last; a pending message is failed before its transport
/// goes.
pub proof fn owners_end_in_order(detach: CaptureDetach, reply: DetachReply, bound: bool)
    ensures
        ({
            let after = detach_goes_on(detach, reply, bound);
            &&& detach_position(detach.phase) <= detach_position(after.phase)
            &&& after.phase is Ended ==> detach.phase is Ended || detach.phase is Detaching
            &&& detach.phase is EndingSource && !(after.phase is EndingSource)
                && detach.pending is Some ==> after.phase == (DetachPhase::FailingMessage {
                event: detach.pending->0,
            })
            &&& detach_position(detach.phase) < 3 && detach_position(after.phase) >= 3 ==> (
            after.phase is TakingOffline <==> bound)
        }),
{
}

/// Every result of a detachment is kept, and it goes through whatever fails: the
/// generation, the source, the message that a device works on, the transport, the
/// monitor.
pub proof fn detachments_keep_every_result(detach: CaptureDetach, reply: DetachReply, bound: bool)
    ensures
        ({
            let after = detach_goes_on(detach, reply, bound);
            &&& detach.phase is Stopping && reply is Stopped ==> after.stopped == reply->Stopped_0
                && after.phase is EndingSource
            &&& detach.phase is EndingSource && reply is Done ==> after.source == reply->Done_0
                && !(after.phase is EndingSource)
            &&& detach.phase is FailingMessage && reply is Done ==> after.message == Some(
                reply->Done_0,
            ) && (after.phase is TakingOffline <==> bound)
            &&& detach.phase is TakingOffline && reply is Done ==> after.phase
                == (DetachPhase::Unbinding { offline: reply->Done_0 })
            &&& detach.phase matches DetachPhase::Unbinding { offline } ==> (reply is Done
                ==> after.transport == Some((offline, reply->Done_0)) && after.phase is Detaching)
            &&& detach.phase is Detaching && reply is Monitor ==> after.monitor == reply->Monitor_0
                && after.phase is Ended
            &&& !(detach.phase is Stopping && reply is Stopped) ==> after.stopped == detach.stopped
            &&& !(detach.phase is EndingSource && reply is Done) ==> after.source == detach.source
            &&& !(detach.phase is FailingMessage && reply is Done) ==> after.message
                == detach.message
            &&& !(detach.phase is Unbinding && reply is Done) ==> after.transport
                == detach.transport
            &&& !(detach.phase is Detaching && reply is Monitor) ==> after.monitor
                == detach.monitor
        }),
{
}

/// A detachment has no failure exactly if none of its parts failed.
pub proof fn clean_detachments_have_no_failure(detach: CaptureDetach)
    ensures
        detach_failures(detach).len() == 0 <==> {
            &&& detach.stopped is Ok
            &&& detach.source is Ok
            &&& detach.message is Some ==> detach.message->0 is Ok
            &&& detach.transport is Some ==> ({
                let (offline, unbound) = detach.transport->0;
                offline is Ok && unbound is Ok
            })
            &&& detach.monitor is Done
        },
        detach_begins(detach.pending).phase is Stopping,
        detach_begins(detach.pending).pending == detach.pending,
        detach_failures(detach_begins(detach.pending)).len() == 0,
{
}

} // verus!
