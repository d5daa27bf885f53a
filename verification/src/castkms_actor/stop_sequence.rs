//! The order of a generation's end.
//!
//! The source stops first, then capture. What consumers still own is given
//! back before and after, every request that is out is drained, and the pool
//! goes last. A part that fails keeps no other part from being tried.

use crate::castkms_actor::frames::TimedOutcome;
use crate::castkms_actor::stop::{
    consumer_owned, drain_outstanding_capture, drained_events, drained_readiness,
    owned_by_consumer, state_name, state_of, stop_active, stop_failures, stop_needs_capture_stop,
    CaptureBufferInfo, CaptureBufferState, DrainStep, SourceStop, StopReport,
};
use crate::castkms_actor::{
    ActiveGeneration, CaptureStreamInfo, IdentityView, OutstandingCapture, VideoNodeIdentity,
};
use crate::kernel_display_port::{kernel_error, KernelDisplayError};
use crate::nonzero::{nonzero_u32_ext, nonzero_u64_ext, NonZeroU32, NonZeroU64};
use crate::text::joined;
use std::collections::VecDeque;
use vstd::prelude::*;

verus! {

broadcast use {nonzero_u32_ext, nonzero_u64_ext};

/// A buffer of a stream.
#[derive(Debug, Clone, Copy, PartialEq, Eq, Structural)]
pub struct StreamBuffer {
    pub stream_id: NonZeroU32,
    pub buffer_id: NonZeroU32,
}

/// What the draining of one request waits for.
#[derive(Debug, PartialEq, Eq)]
pub enum DrainPhase {
    /// Where the buffer is.
    Looking,
    AwaitingEvents,
    AwaitingReadiness,
    Taking,
    /// The buffer that came back with the completion.
    Releasing(StreamBuffer),
    Ended(Result<(), KernelDisplayError>),
}

/// The answer to a step of draining.
#[derive(Debug)]
pub enum DrainReply {
    /// The buffers of the stream, and whether the time is up.
    Buffers { buffers: Vec<CaptureBufferInfo>, expired: bool },
    Waited(TimedOutcome),
    Taken(Result<StreamBuffer, String>),
    Released(Result<(), String>),
}

/// A wait of a drained request went wrong.
pub open spec fn wait_fails(
    operation: Seq<char>,
    expiry: Seq<char>,
    outcome: TimedOutcome,
    phase: DrainPhase,
) -> bool {
    phase matches DrainPhase::Ended(Err(error)) && error@ == (match outcome {
        TimedOutcome::Failed(text) => kernel_error(operation, text@),
        _ => kernel_error("drain CastKMS capture"@, expiry),
    })
}

/// A buffer that is done is taken and given back; one that is not is waited
/// for, until the time is up.
pub open spec fn drain_reacts(
    before: DrainPhase,
    buffer_id: NonZeroU32,
    reply: DrainReply,
    after: DrainPhase,
) -> bool {
    match (before, reply) {
        (DrainPhase::Looking, DrainReply::Buffers { buffers, expired }) => match state_of(
            buffers@,
            buffer_id,
        ) {
            None => after matches DrainPhase::Ended(Err(error)) && error@ == kernel_error(
                "drain CastKMS capture"@,
                "queued buffer disappeared during teardown"@,
            ),
            Some(state) => if expired {
                after matches DrainPhase::Ended(Err(error)) && error@ == kernel_error(
                    "drain CastKMS capture"@,
                    "timed out waiting for canceled capture completion"@,
                )
            } else {
                match state {
                    CaptureBufferState::Completed => after == DrainPhase::AwaitingReadiness,
                    CaptureBufferState::Queued => after == DrainPhase::AwaitingEvents,
                    _ => after matches DrainPhase::Ended(Err(error)) && error@ == kernel_error(
                        "drain CastKMS capture"@,
                        "queued buffer entered unexpected state "@ + state_name(state),
                    ),
                }
            },
        },
        (DrainPhase::AwaitingEvents, DrainReply::Waited(outcome)) => if outcome
            == TimedOutcome::Done {
            after == DrainPhase::Looking
        } else {
            wait_fails(
                "drain CastKMS event stream"@,
                "timed out waiting for canceled capture event"@,
                outcome,
                after,
            )
        },
        (DrainPhase::AwaitingReadiness, DrainReply::Waited(outcome)) => if outcome
            == TimedOutcome::Done {
            after == DrainPhase::Taking
        } else {
            wait_fails(
                "wait for drained CastKMS capture readiness"@,
                "timed out waiting for capture-buffer readiness"@,
                outcome,
                after,
            )
        },
        (DrainPhase::Taking, DrainReply::Taken(Ok(buffer))) => after == DrainPhase::Releasing(
            buffer,
        ),
        (DrainPhase::Taking, DrainReply::Taken(Err(text))) => after matches DrainPhase::Ended(
            Err(error),
        ) && error@ == kernel_error("take drained CastKMS completion"@, text@),
        (DrainPhase::Releasing(_), DrainReply::Released(Ok(_))) => after matches DrainPhase::Ended(
            Ok(_),
        ),
        (DrainPhase::Releasing(_), DrainReply::Released(Err(text))) =>
            after matches DrainPhase::Ended(Err(error)) && error@ == kernel_error(
                "release drained CastKMS completion"@,
                text@,
            ),
        (before, _) => after == before,
    }
}

impl DrainPhase {
    /// Go on after an answer. An answer to another step changes nothing.
    pub fn proceed(self, buffer_id: NonZeroU32, reply: DrainReply) -> (after: DrainPhase)
        ensures
            drain_reacts(self, buffer_id, reply, after),
    {
        match (self, reply) {
            (DrainPhase::Looking, DrainReply::Buffers { buffers, expired }) => {
                match drain_outstanding_capture(&buffers, buffer_id, expired) {
                    DrainStep::Fail(error) => DrainPhase::Ended(Err(error)),
                    DrainStep::TakeCompletion => DrainPhase::AwaitingReadiness,
                    DrainStep::AwaitEvents => DrainPhase::AwaitingEvents,
                }
            },
            (DrainPhase::AwaitingEvents, DrainReply::Waited(outcome)) => match drained_events(
                outcome,
            ) {
                Ok(()) => DrainPhase::Looking,
                Err(error) => DrainPhase::Ended(Err(error)),
            },
            (DrainPhase::AwaitingReadiness, DrainReply::Waited(outcome)) => match drained_readiness(
                outcome,
            ) {
                Ok(()) => DrainPhase::Taking,
                Err(error) => DrainPhase::Ended(Err(error)),
            },
            (DrainPhase::Taking, DrainReply::Taken(Ok(buffer))) => DrainPhase::Releasing(buffer),
            (DrainPhase::Taking, DrainReply::Taken(Err(text))) => DrainPhase::Ended(
                Err(
                    KernelDisplayError {
                        operation: "take drained CastKMS completion",
                        message: text,
                    },
                ),
            ),
            (DrainPhase::Releasing(_), DrainReply::Released(Ok(()))) => DrainPhase::Ended(Ok(())),
            (DrainPhase::Releasing(_), DrainReply::Released(Err(text))) => DrainPhase::Ended(
                Err(
                    KernelDisplayError {
                        operation: "release drained CastKMS completion",
                        message: text,
                    },
                ),
            ),
            (phase, _) => phase,
        }
    }
}

/// What a stop waits for.
#[derive(Debug, PartialEq, Eq)]
pub enum StopPhase {
    StoppingSource,
    /// The buffers of the stream, before or after capture has stopped.
    Listing { late: bool },
    Releasing { late: bool, owned: Vec<NonZeroU32>, released: usize },
    FindingActiveStream,
    StoppingCapture,
    Draining { capture: OutstandingCapture, phase: DrainPhase },
    DestroyingPool,
    Ended,
}

/// The end of one generation, under way.
#[derive(Debug)]
pub struct CaptureStop {
    pub media_generation: NonZeroU64,
    pub stream: CaptureStreamInfo,
    pub identity: VideoNodeIdentity,
    pub outstanding: VecDeque<OutstandingCapture>,
    pub report: StopReport,
    pub phase: StopPhase,
}

/// The next outside operation of a stop.
#[derive(Debug, PartialEq, Eq)]
pub enum CaptureStopAction {
    StopSource { media_generation: NonZeroU64 },
    ListBuffers { stream_id: NonZeroU32 },
    ReleaseBuffer(StreamBuffer),
    FindActiveStream,
    StopCapture,
    ReadEvents,
    WaitReadiness(StreamBuffer),
    TakeCompletion(StreamBuffer),
    DestroyPool { stream_id: NonZeroU32 },
    /// Nothing is left to do.
    Nothing,
}

/// The answer to an outside operation.
#[derive(Debug)]
pub enum CaptureStopReply {
    Source(SourceStop),
    Buffers(Vec<CaptureBufferInfo>),
    Done(Result<(), String>),
    ActiveStream(Option<CaptureStreamInfo>),
    Drain(DrainReply),
}

/// The contents of a [`StopReport`].
#[verifier::ext_equal]
pub struct ReportView {
    pub source: Option<SourceStop>,
    pub early_releases: Seq<(NonZeroU32, Result<(), String>)>,
    pub capture: Option<Result<(), String>>,
    pub drained: Seq<Result<(), KernelDisplayError>>,
    pub late_releases: Seq<(NonZeroU32, Result<(), String>)>,
    pub pool: Result<(), String>,
}

impl View for StopReport {
    type V = ReportView;

    open spec fn view(&self) -> ReportView {
        ReportView {
            source: self.source,
            early_releases: self.early_releases@,
            capture: self.capture,
            drained: self.drained@,
            late_releases: self.late_releases@,
            pool: self.pool,
        }
    }
}

/// The contents of a [`StopPhase`].
#[verifier::ext_equal]
pub enum StopPhaseView {
    StoppingSource,
    Listing { late: bool },
    Releasing { late: bool, owned: Seq<NonZeroU32>, released: int },
    FindingActiveStream,
    StoppingCapture,
    Draining { capture: OutstandingCapture, phase: DrainPhase },
    DestroyingPool,
    Ended,
}

impl View for StopPhase {
    type V = StopPhaseView;

    open spec fn view(&self) -> StopPhaseView {
        match *self {
            StopPhase::StoppingSource => StopPhaseView::StoppingSource,
            StopPhase::Listing { late } => StopPhaseView::Listing { late },
            StopPhase::Releasing { late, owned, released } => StopPhaseView::Releasing {
                late,
                owned: owned@,
                released: released as int,
            },
            StopPhase::FindingActiveStream => StopPhaseView::FindingActiveStream,
            StopPhase::StoppingCapture => StopPhaseView::StoppingCapture,
            StopPhase::Draining { capture, phase } => StopPhaseView::Draining { capture, phase },
            StopPhase::DestroyingPool => StopPhaseView::DestroyingPool,
            StopPhase::Ended => StopPhaseView::Ended,
        }
    }
}

/// The contents of a [`CaptureStop`].
#[verifier::ext_equal]
pub struct CaptureStopView {
    pub media_generation: NonZeroU64,
    pub stream: CaptureStreamInfo,
    pub identity: IdentityView,
    pub outstanding: Seq<OutstandingCapture>,
    pub report: ReportView,
    pub phase: StopPhaseView,
}

impl View for CaptureStop {
    type V = CaptureStopView;

    open spec fn view(&self) -> CaptureStopView {
        CaptureStopView {
            media_generation: self.media_generation,
            stream: self.stream,
            identity: self.identity@,
            outstanding: self.outstanding@,
            report: self.report@,
            phase: self.phase@,
        }
    }
}

/// Nothing has been tried yet.
pub open spec fn untried() -> ReportView {
    ReportView {
        source: None,
        early_releases: Seq::empty(),
        capture: None,
        drained: Seq::empty(),
        late_releases: Seq::empty(),
        pool: Ok(()),
    }
}

impl CaptureStopView {
    /// A buffer that is to be released is there, and is given a result for
    /// each that came before it.
    pub open spec fn wf(self) -> bool {
        match self.phase {
            StopPhaseView::Releasing { owned, released, .. } => 0 <= released < owned.len(),
            StopPhaseView::Draining { phase, .. } => !(phase is Ended),
            _ => true,
        }
    }

    /// The stop with the next request to drain, or with the buffers to look at
    /// if there is none.
    pub open spec fn drains(self) -> CaptureStopView {
        if self.outstanding.len() == 0 {
            CaptureStopView { phase: StopPhaseView::Listing { late: true }, ..self }
        } else {
            CaptureStopView {
                outstanding: self.outstanding.drop_first(),
                phase: StopPhaseView::Draining {
                    capture: self.outstanding[0],
                    phase: DrainPhase::Looking,
                },
                ..self
            }
        }
    }

    /// The stop once the buffers of consumers are given back.
    pub open spec fn released(self, late: bool) -> CaptureStopView {
        CaptureStopView {
            phase: if late {
                StopPhaseView::DestroyingPool
            } else {
                StopPhaseView::FindingActiveStream
            },
            ..self
        }
    }

    /// What is asked for next.
    pub open spec fn asks(self) -> CaptureStopAction {
        let stream_id = self.stream.stream_id;
        match self.phase {
            StopPhaseView::StoppingSource => CaptureStopAction::StopSource {
                media_generation: self.media_generation,
            },
            StopPhaseView::Listing { .. } => CaptureStopAction::ListBuffers { stream_id },
            StopPhaseView::Releasing { owned, released, .. } => CaptureStopAction::ReleaseBuffer(
                StreamBuffer { stream_id, buffer_id: owned[released] },
            ),
            StopPhaseView::FindingActiveStream => CaptureStopAction::FindActiveStream,
            StopPhaseView::StoppingCapture => CaptureStopAction::StopCapture,
            StopPhaseView::Draining { capture, phase } => {
                let buffer = StreamBuffer {
                    stream_id: capture.queue.stream_id,
                    buffer_id: capture.queue.buffer_id,
                };
                match phase {
                    DrainPhase::Looking => CaptureStopAction::ListBuffers {
                        stream_id: capture.queue.stream_id,
                    },
                    DrainPhase::AwaitingEvents => CaptureStopAction::ReadEvents,
                    DrainPhase::AwaitingReadiness => CaptureStopAction::WaitReadiness(buffer),
                    DrainPhase::Taking => CaptureStopAction::TakeCompletion(buffer),
                    DrainPhase::Releasing(taken) => CaptureStopAction::ReleaseBuffer(taken),
                    DrainPhase::Ended(_) => CaptureStopAction::Nothing,
                }
            },
            StopPhaseView::DestroyingPool => CaptureStopAction::DestroyPool { stream_id },
            StopPhaseView::Ended => CaptureStopAction::Nothing,
        }
    }
}

/// The result of one release is noted.
pub open spec fn release_noted(
    report: ReportView,
    late: bool,
    buffer_id: NonZeroU32,
    result: Result<(), String>,
) -> ReportView {
    if late {
        ReportView { late_releases: report.late_releases.push((buffer_id, result)), ..report }
    } else {
        ReportView { early_releases: report.early_releases.push((buffer_id, result)), ..report }
    }
}

/// How a stop goes on after an answer. An answer to another step changes
/// nothing.
pub open spec fn stop_reacts(
    before: CaptureStopView,
    reply: CaptureStopReply,
    after: CaptureStopView,
) -> bool {
    match (before.phase, reply) {
        (StopPhaseView::StoppingSource, CaptureStopReply::Source(outcome)) => after == (
        CaptureStopView {
            report: ReportView { source: Some(outcome), ..before.report },
            phase: StopPhaseView::Listing { late: false },
            ..before
        }),
        (StopPhaseView::Listing { late }, CaptureStopReply::Buffers(buffers)) => {
            let owned = owned_by_consumer(buffers@);
            after == (if owned.len() == 0 {
                before.released(late)
            } else {
                CaptureStopView {
                    phase: StopPhaseView::Releasing { late, owned, released: 0 },
                    ..before
                }
            })
        },
        (StopPhaseView::Releasing { late, owned, released }, CaptureStopReply::Done(result)) => {
            let noted = CaptureStopView {
                report: release_noted(before.report, late, owned[released], result),
                ..before
            };
            after == (if released + 1 < owned.len() {
                CaptureStopView {
                    phase: StopPhaseView::Releasing { late, owned, released: released + 1 },
                    ..noted
                }
            } else {
                noted.released(late)
            })
        },
        (StopPhaseView::FindingActiveStream, CaptureStopReply::ActiveStream(active)) => after == (
        if active == Some(before.stream) {
            CaptureStopView { phase: StopPhaseView::StoppingCapture, ..before }
        } else {
            before.drains()
        }),
        (StopPhaseView::StoppingCapture, CaptureStopReply::Done(result)) => after == (
        CaptureStopView {
            report: ReportView { capture: Some(result), ..before.report },
            ..before
        }).drains(),
        (StopPhaseView::Draining { capture, phase }, CaptureStopReply::Drain(reply)) =>
            exists|drained: DrainPhase|
                #![trigger drain_reacts(phase, capture.queue.buffer_id, reply, drained)]
                {
                    &&& drain_reacts(phase, capture.queue.buffer_id, reply, drained)
                    &&& after == (match drained {
                        DrainPhase::Ended(result) => (CaptureStopView {
                            report: ReportView {
                                drained: before.report.drained.push(result),
                                ..before.report
                            },
                            ..before
                        }).drains(),
                        _ => CaptureStopView {
                            phase: StopPhaseView::Draining { capture, phase: drained },
                            ..before
                        },
                    })
                },
        (StopPhaseView::DestroyingPool, CaptureStopReply::Done(result)) => after == (
        CaptureStopView {
            report: ReportView { pool: result, ..before.report },
            phase: StopPhaseView::Ended,
            ..before
        }),
        (_, _) => after == before,
    }
}

impl CaptureStop {
    /// Stop a generation.
    pub fn begin(generation: ActiveGeneration) -> (stop: Self)
        ensures
            stop@ == (CaptureStopView {
                media_generation: generation@.media_generation,
                stream: generation@.stream,
                identity: generation@.identity,
                outstanding: generation@.outstanding,
                report: untried(),
                phase: if generation@.source_active {
                    StopPhaseView::StoppingSource
                } else {
                    StopPhaseView::Listing { late: false }
                },
            }),
            stop@.wf(),
    {
        let phase = if generation.source_active {
            StopPhase::StoppingSource
        } else {
            StopPhase::Listing { late: false }
        };
        let stop = CaptureStop {
            media_generation: generation.media_generation,
            stream: generation.stream,
            identity: generation.identity,
            outstanding: generation.outstanding,
            report: StopReport {
                source: None,
                early_releases: Vec::new(),
                capture: None,
                drained: Vec::new(),
                late_releases: Vec::new(),
                pool: Ok(()),
            },
            phase,
        };
        proof {
            assert(stop@.report =~= untried());
        }
        stop
    }

    /// What is to be done next.
    pub fn action(&self) -> (action: CaptureStopAction)
        requires
            self@.wf(),
        ensures
            action == self@.asks(),
    {
        let stream_id = self.stream.stream_id;
        match &self.phase {
            StopPhase::StoppingSource => CaptureStopAction::StopSource {
                media_generation: self.media_generation,
            },
            StopPhase::Listing { .. } => CaptureStopAction::ListBuffers { stream_id },
            StopPhase::Releasing { owned, released, .. } => CaptureStopAction::ReleaseBuffer(
                StreamBuffer { stream_id, buffer_id: owned[*released] },
            ),
            StopPhase::FindingActiveStream => CaptureStopAction::FindActiveStream,
            StopPhase::StoppingCapture => CaptureStopAction::StopCapture,
            StopPhase::Draining { capture, phase } => {
                let buffer = StreamBuffer {
                    stream_id: capture.queue.stream_id,
                    buffer_id: capture.queue.buffer_id,
                };
                match phase {
                    DrainPhase::Looking => CaptureStopAction::ListBuffers {
                        stream_id: capture.queue.stream_id,
                    },
                    DrainPhase::AwaitingEvents => CaptureStopAction::ReadEvents,
                    DrainPhase::AwaitingReadiness => CaptureStopAction::WaitReadiness(buffer),
                    DrainPhase::Taking => CaptureStopAction::TakeCompletion(buffer),
                    DrainPhase::Releasing(taken) => CaptureStopAction::ReleaseBuffer(*taken),
                    DrainPhase::Ended(_) => CaptureStopAction::Nothing,
                }
            },
            StopPhase::DestroyingPool => CaptureStopAction::DestroyPool { stream_id },
            StopPhase::Ended => CaptureStopAction::Nothing,
        }
    }

    /// Go on after an answer.
    pub fn proceed(&mut self, reply: CaptureStopReply)
        requires
            old(self)@.wf(),
        ensures
            final(self)@.wf(),
            stop_reacts(old(self)@, reply, final(self)@),
    {
        let ghost before = self@;
        let mut phase = StopPhase::Ended;
        core::mem::swap(&mut self.phase, &mut phase);
        match (phase, reply) {
            (StopPhase::StoppingSource, CaptureStopReply::Source(outcome)) => {
                self.report.source = Some(outcome);
                self.phase = StopPhase::Listing { late: false };
            },
            (StopPhase::Listing { late }, CaptureStopReply::Buffers(buffers)) => {
                let owned = consumer_owned(&buffers);
                if owned.len() == 0 {
                    self.phase = after_releases(late);
                } else {
                    self.phase = StopPhase::Releasing { late, owned, released: 0 };
                }
            },
            (
                StopPhase::Releasing { late, owned, released },
                CaptureStopReply::Done(result),
            ) => {
                let buffer_id = owned[released];
                if late {
                    self.report.late_releases.push((buffer_id, result));
                } else {
                    self.report.early_releases.push((buffer_id, result));
                }
                if released < owned.len() - 1 {
                    self.phase = StopPhase::Releasing { late, owned, released: released + 1 };
                } else {
                    self.phase = after_releases(late);
                }
            },
            (StopPhase::FindingActiveStream, CaptureStopReply::ActiveStream(active)) => {
                if stop_needs_capture_stop(active, self.stream) {
                    self.phase = StopPhase::StoppingCapture;
                } else {
                    self.drain_next();
                }
            },
            (StopPhase::StoppingCapture, CaptureStopReply::Done(result)) => {
                self.report.capture = Some(result);
                self.drain_next();
            },
            (StopPhase::Draining { capture, phase }, CaptureStopReply::Drain(reply)) => {
                let ghost told = reply;
                let ghost from = phase;
                let drained = phase.proceed(capture.queue.buffer_id, reply);
                proof {
                    assert(drain_reacts(from, capture.queue.buffer_id, told, drained));
                }
                match drained {
                    DrainPhase::Ended(result) => {
                        self.report.drained.push(result);
                        self.drain_next();
                    },
                    other => {
                        self.phase = StopPhase::Draining { capture, phase: other };
                    },
                }
            },
            (StopPhase::DestroyingPool, CaptureStopReply::Done(result)) => {
                self.report.pool = result;
                self.phase = StopPhase::Ended;
            },
            (phase, _) => {
                self.phase = phase;
            },
        }
    }

    fn drain_next(&mut self)
        ensures
            final(self)@ == old(self)@.drains(),
            final(self)@.wf(),
    {
        let ghost before = self@;
        match self.outstanding.pop_front() {
            None => {
                self.phase = StopPhase::Listing { late: true };
            },
            Some(capture) => {
                self.phase = StopPhase::Draining { capture, phase: DrainPhase::Looking };
                proof {
                    assert(self@.outstanding =~= before.outstanding.drop_first());
                }
            },
        }
    }

    /// What came of the stop, once it has ended.
    pub fn finish(self) -> (result: Result<(), KernelDisplayError>)
        ensures
            result is Ok <==> stop_failures(self.identity@, self.report).len() == 0,
            result matches Err(error) ==> error@ == kernel_error(
                "stop capture generation"@,
                joined(stop_failures(self.identity@, self.report), "; "@),
            ),
    {
        stop_active(&self.identity, self.report)
    }
}

fn after_releases(late: bool) -> (phase: StopPhase)
    ensures
        phase@ == (if late {
            StopPhaseView::DestroyingPool
        } else {
            StopPhaseView::FindingActiveStream
        }),
{
    if late {
        StopPhase::DestroyingPool
    } else {
        StopPhase::FindingActiveStream
    }
}

/// How far a stop is.
pub open spec fn stop_position(phase: StopPhaseView) -> nat {
    match phase {
        StopPhaseView::StoppingSource => 0,
        StopPhaseView::Listing { late: false } => 1,
        StopPhaseView::Releasing { late: false, .. } => 2,
        StopPhaseView::FindingActiveStream => 3,
        StopPhaseView::StoppingCapture => 4,
        StopPhaseView::Draining { .. } => 5,
        StopPhaseView::Listing { late: true } => 6,
        StopPhaseView::Releasing { late: true, .. } => 7,
        StopPhaseView::DestroyingPool => 8,
        StopPhaseView::Ended => 9,
    }
}

/// A stop tries every part, whatever came of the others: it goes forward only,
/// passes over none, drains every request that is out, and ends with the pool.
pub proof fn stops_try_every_part(
    before: CaptureStopView,
    reply: CaptureStopReply,
    after: CaptureStopView,
)
    requires
        before.wf(),
        stop_reacts(before, reply, after),
    ensures
        stop_position(before.phase) <= stop_position(after.phase),
        after.phase is Ended ==> before.phase is Ended || before.phase is DestroyingPool,
        stop_position(before.phase) < 6 <= stop_position(after.phase)
            ==> before.outstanding.len() == 0,
        after.phase is DestroyingPool ==> stop_position(before.phase) >= 6,
        after.stream == before.stream,
        after.identity == before.identity,
{
}

/// Every request that was out when the stop began is drained once: those that
/// still wait and those that have a result are together as many as before.
pub proof fn drained_requests_are_counted(
    before: CaptureStopView,
    reply: CaptureStopReply,
    after: CaptureStopView,
)
    requires
        before.wf(),
        stop_reacts(before, reply, after),
    ensures
        requests_of(after) == requests_of(before),
{
}

/// The requests that wait, that are being drained, and that were drained.
pub open spec fn requests_of(stop: CaptureStopView) -> nat {
    stop.outstanding.len() + stop.report.drained.len() + if stop.phase is Draining {
        1nat
    } else {
        0nat
    }
}

/// Each part of a stop asks for what it is about, of the generation and the stream that
/// stop.
pub proof fn stops_ask_for_their_own_stream(stop: CaptureStopView)
    ensures
        stop.phase is StoppingSource ==> stop.asks() == (CaptureStopAction::StopSource {
            media_generation: stop.media_generation,
        }),
        stop.phase is Listing ==> stop.asks() == (CaptureStopAction::ListBuffers {
            stream_id: stop.stream.stream_id,
        }),
        stop.phase matches StopPhaseView::Releasing { late, owned, released } ==> stop.asks()
            matches CaptureStopAction::ReleaseBuffer(buffer) && buffer.stream_id
            == stop.stream.stream_id && buffer.buffer_id == owned[released],
        stop.phase is FindingActiveStream <==> stop.asks() is FindActiveStream,
        stop.phase is StoppingCapture <==> stop.asks() is StopCapture,
        stop.phase is DestroyingPool <==> stop.asks() is DestroyPool,
        stop.phase is DestroyingPool ==> stop.asks() == (CaptureStopAction::DestroyPool {
            stream_id: stop.stream.stream_id,
        }),
        stop.phase is Ended ==> stop.asks() is Nothing,
        stop.phase matches StopPhaseView::Draining { capture, phase } ==> {
            let buffer = StreamBuffer {
                stream_id: capture.queue.stream_id,
                buffer_id: capture.queue.buffer_id,
            };
            &&& phase is Looking ==> stop.asks() == (CaptureStopAction::ListBuffers {
                stream_id: capture.queue.stream_id,
            })
            &&& phase is AwaitingEvents ==> stop.asks() is ReadEvents
            &&& phase is AwaitingReadiness ==> stop.asks() == CaptureStopAction::WaitReadiness(
                buffer,
            )
            &&& phase is Taking ==> stop.asks() == CaptureStopAction::TakeCompletion(buffer)
            &&& phase is Releasing ==> stop.asks() == CaptureStopAction::ReleaseBuffer(
                phase->Releasing_0,
            )
        },
{
}

/// Every reply is kept in the report, as the result of the part that it answers.
pub proof fn stops_keep_every_result(
    before: CaptureStopView,
    reply: CaptureStopReply,
    after: CaptureStopView,
)
    requires
        before.wf(),
        stop_reacts(before, reply, after),
    ensures
        after.media_generation == before.media_generation,
        before.phase is StoppingSource && reply is Source ==> after.report.source == Some(
            reply->Source_0,
        ),
        !(before.phase is StoppingSource && reply is Source) ==> after.report.source
            == before.report.source,
        before.phase is StoppingCapture && reply is Done ==> after.report.capture == Some(
            reply->Done_0,
        ),
        !(before.phase is StoppingCapture && reply is Done) ==> after.report.capture
            == before.report.capture,
        before.phase is DestroyingPool && reply is Done ==> after.report.pool == reply->Done_0
            && after.phase is Ended,
        !(before.phase is DestroyingPool && reply is Done) ==> after.report.pool
            == before.report.pool,
        before.phase matches StopPhaseView::Releasing { late, owned, released } ==> (reply is Done
            ==> {
            let list = if late {
                after.report.late_releases
            } else {
                after.report.early_releases
            };
            let shorter = if late {
                before.report.late_releases
            } else {
                before.report.early_releases
            };
            list == shorter.push((owned[released], reply->Done_0))
        }),
        !(before.phase is Releasing && reply is Done) ==> after.report.early_releases
            == before.report.early_releases && after.report.late_releases
            == before.report.late_releases,
        before.report.drained.is_prefix_of(after.report.drained),
        before.phase is StoppingSource && reply is Source ==> after.phase
            == (StopPhaseView::Listing { late: false }),
        before.phase is FindingActiveStream && reply is ActiveStream ==> (after.phase
            is StoppingCapture <==> reply->ActiveStream_0 == Some(before.stream)),
{
}

/// A request is drained by taking its completion once it is ready, and giving the buffer
/// back that came with it; only that ends well.
pub proof fn requests_are_drained_to_their_release(
    before: DrainPhase,
    buffer_id: NonZeroU32,
    reply: DrainReply,
    after: DrainPhase,
)
    requires
        drain_reacts(before, buffer_id, reply, after),
        !(before is Ended),
    ensures
        after is Ended && after->Ended_0 is Ok <==> before is Releasing && reply is Released
            && reply->Released_0 is Ok,
        after is AwaitingReadiness && !(before is AwaitingReadiness) ==> before is Looking
            && reply is Buffers && state_of(reply->buffers@, buffer_id)
            == Some(CaptureBufferState::Completed),
        after is AwaitingEvents && !(before is AwaitingEvents) ==> before is Looking && state_of(
            reply->buffers@,
            buffer_id,
        ) == Some(CaptureBufferState::Queued),
        after is Taking && !(before is Taking) ==> before is AwaitingReadiness && reply
            == DrainReply::Waited(TimedOutcome::Done),
        after is Looking && !(before is Looking) ==> before is AwaitingEvents && reply
            == DrainReply::Waited(TimedOutcome::Done),
        after is Releasing && !(before is Releasing) ==> before is Taking && reply is Taken
            && reply->Taken_0 is Ok && after->Releasing_0 == reply->Taken_0->Ok_0,
        before is Looking && reply is Buffers && reply->expired ==> after is Ended,
        before is Taking && reply is Taken && reply->Taken_0 is Ok ==> after is Releasing,
{
}

/// While a request is drained, its reply moves it on; the request stays the same until it has
/// come to its end, and is then noted with its result.
pub proof fn drained_requests_move_on(
    before: CaptureStopView,
    reply: DrainReply,
    after: CaptureStopView,
)
    requires
        before.phase is Draining,
        !(before.phase->Draining_phase is Ended),
        stop_reacts(before, CaptureStopReply::Drain(reply), after),
    ensures
        after.report.drained == before.report.drained ==> after.phase is Draining
            && after.phase->Draining_capture == before.phase->Draining_capture
            && after.outstanding == before.outstanding && drain_reacts(
            before.phase->Draining_phase,
            before.phase->Draining_capture.queue.buffer_id,
            reply,
            after.phase->Draining_phase,
        ),
        after.report.drained != before.report.drained ==> after.report.drained.len()
            == before.report.drained.len() + 1 && drain_reacts(
            before.phase->Draining_phase,
            before.phase->Draining_capture.queue.buffer_id,
            reply,
            DrainPhase::Ended(after.report.drained.last()),
        ),
{
    let list = before.report.drained;
    assert forall|result: Result<(), KernelDisplayError>| #[trigger] list.push(result) != list by {
        assert(list.push(result).len() == list.len() + 1);
    }
}

} // verus!
