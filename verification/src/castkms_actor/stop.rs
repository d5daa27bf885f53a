//! The end of one capture generation.

use crate::castkms_actor::frames::TimedOutcome;
use crate::castkms_actor::{
    combined_kernel_failures, CaptureStreamInfo, IdentityView, VideoNodeIdentity,
};
use crate::kernel_display_port::{kernel_error, KernelDisplayError};
use crate::media_driver::note;
use crate::nonzero::{nonzero_u32_ext, NonZeroU32};
use crate::text::{concat, decimal, joined, push_decimal, texts_view};
use vstd::prelude::*;
use vstd::string::*;

verus! {

broadcast use nonzero_u32_ext;

/// What came of stopping the video source.
#[derive(Debug, PartialEq, Eq)]
pub enum SourceStop {
    Stopped(VideoNodeIdentity),
    ShutdownFailed { identity: VideoNodeIdentity, error: String },
    NoActiveGeneration,
    Failed(String),
}

/// Where a capture buffer is.
#[derive(Debug, Clone, Copy, PartialEq, Eq, Structural)]
pub enum CaptureBufferState {
    Idle,
    Queued,
    Completed,
    ConsumerOwned,
}

/// A capture buffer and where it is.
#[derive(Debug, Clone, Copy, PartialEq, Eq, Structural)]
pub struct CaptureBufferInfo {
    pub buffer_id: NonZeroU32,
    pub state: CaptureBufferState,
}

/// What is wrong with the way a source stopped.
///
/// A source can have failed, and have quiesced, before the stop reached it: to
/// find it already stopped is no error.
pub open spec fn source_failures(identity: IdentityView, outcome: SourceStop) -> Seq<Seq<char>> {
    match outcome {
        SourceStop::Stopped(stopped) => if stopped@ == identity {
            Seq::empty()
        } else {
            seq!["PipeWire stop returned another generation identity"@]
        },
        SourceStop::ShutdownFailed { identity: stopped, error } => {
            let failure = "shut down PipeWire generation: "@ + error@;
            if stopped@ == identity {
                seq![failure]
            } else {
                seq!["PipeWire failed stop returned another identity"@, failure]
            }
        },
        SourceStop::NoActiveGeneration => Seq::empty(),
        SourceStop::Failed(error) => seq!["stop PipeWire generation: "@ + error@],
    }
}

/// Note what is wrong with the way a source stopped.
pub fn note_source_stop(
    identity: &VideoNodeIdentity,
    outcome: SourceStop,
    failures: &mut Vec<String>,
)
    ensures
        texts_view(final(failures)@) == texts_view(old(failures)@) + source_failures(
            identity@,
            outcome,
        ),
{
    let ghost before = texts_view(failures@);
    match outcome {
        SourceStop::Stopped(stopped) => {
            if !stopped.same(identity) {
                note(failures, "PipeWire stop returned another generation identity".to_owned());
            }
        },
        SourceStop::ShutdownFailed { identity: stopped, error } => {
            if !stopped.same(identity) {
                note(failures, "PipeWire failed stop returned another identity".to_owned());
            }
            note(failures, concat("shut down PipeWire generation: ", error.as_str()));
        },
        SourceStop::NoActiveGeneration => {},
        SourceStop::Failed(error) => {
            note(failures, concat("stop PipeWire generation: ", error.as_str()));
        },
    }
    proof {
        assert(texts_view(failures@) =~= before + source_failures(identity@, outcome));
    }
}

/// The buffers that a consumer still owns, in order.
pub open spec fn owned_by_consumer(buffers: Seq<CaptureBufferInfo>) -> Seq<NonZeroU32>
    decreases buffers.len(),
{
    if buffers.len() == 0 {
        Seq::empty()
    } else {
        let earlier = owned_by_consumer(buffers.drop_last());
        if buffers.last().state == CaptureBufferState::ConsumerOwned {
            earlier.push(buffers.last().buffer_id)
        } else {
            earlier
        }
    }
}

/// The buffers that have to be given back to the kernel.
pub fn consumer_owned(buffers: &Vec<CaptureBufferInfo>) -> (owned: Vec<NonZeroU32>)
    ensures
        owned@ == owned_by_consumer(buffers@),
{
    let mut owned: Vec<NonZeroU32> = Vec::new();
    let mut index: usize = 0;
    proof {
        assert(buffers@.take(0) =~= Seq::empty());
    }
    while index < buffers.len()
        invariant
            index <= buffers@.len(),
            owned@ == owned_by_consumer(buffers@.take(index as int)),
        decreases buffers@.len() - index,
    {
        proof {
            assert(buffers@.take(index + 1).drop_last() =~= buffers@.take(index as int));
            assert(buffers@.take(index + 1).last() == buffers@[index as int]);
        }
        if buffers[index].state == CaptureBufferState::ConsumerOwned {
            owned.push(buffers[index].buffer_id);
        }
        index += 1;
    }
    proof {
        assert(buffers@.take(index as int) =~= buffers@);
    }
    owned
}

/// A failure with what was done and why it failed.
pub open spec fn labelled(label: Seq<char>, reply: Result<(), String>) -> Seq<Seq<char>> {
    match reply {
        Ok(_) => Seq::empty(),
        Err(error) => seq![label + error@],
    }
}

/// Note a reply that failed.
pub fn note_reply(label: &str, reply: Result<(), String>, failures: &mut Vec<String>)
    ensures
        texts_view(final(failures)@) == texts_view(old(failures)@) + labelled(label@, reply),
{
    let ghost before = texts_view(failures@);
    if let Err(error) = reply {
        note(failures, concat(label, error.as_str()));
    }
    proof {
        assert(texts_view(failures@) =~= before + labelled(label@, reply));
    }
}

/// What the release of one buffer is called.
pub open spec fn release_label(buffer_id: NonZeroU32) -> Seq<char> {
    "release consumer-owned CastKMS buffer "@ + decimal(buffer_id@ as nat) + ": "@
}

/// Note the reply to the release of one buffer.
pub fn release_consumer_owned(
    buffer_id: NonZeroU32,
    reply: Result<(), String>,
    failures: &mut Vec<String>,
)
    ensures
        texts_view(final(failures)@) == texts_view(old(failures)@) + labelled(
            release_label(buffer_id),
            reply,
        ),
{
    let mut label = "release consumer-owned CastKMS buffer ".to_owned();
    push_decimal(&mut label, buffer_id.get() as u64);
    label.append(": ");
    note_reply(label.as_str(), reply, failures);
}

/// What to do about a request that was still out when capture stopped.
#[derive(Debug, PartialEq, Eq)]
pub enum DrainStep {
    Fail(KernelDisplayError),
    /// The request is done: wait for its buffer, and take it.
    TakeCompletion,
    /// Wait for the kernel to cancel the request.
    AwaitEvents,
}

/// The name of a buffer state.
pub open spec fn state_name(state: CaptureBufferState) -> Seq<char> {
    match state {
        CaptureBufferState::Idle => "Idle"@,
        CaptureBufferState::Queued => "Queued"@,
        CaptureBufferState::Completed => "Completed"@,
        CaptureBufferState::ConsumerOwned => "ConsumerOwned"@,
    }
}

/// The state of one of several buffers.
pub open spec fn state_of(buffers: Seq<CaptureBufferInfo>, buffer_id: NonZeroU32) -> Option<
    CaptureBufferState,
>
    decreases buffers.len(),
{
    if buffers.len() == 0 {
        None
    } else {
        match state_of(buffers.drop_last(), buffer_id) {
            Some(state) => Some(state),
            None => if buffers.last().buffer_id == buffer_id {
                Some(buffers.last().state)
            } else {
                None
            },
        }
    }
}

proof fn state_of_prefix(buffers: Seq<CaptureBufferInfo>, buffer_id: NonZeroU32, length: int)
    requires
        0 <= length <= buffers.len(),
        state_of(buffers.take(length), buffer_id) is Some,
    ensures
        state_of(buffers, buffer_id) == state_of(buffers.take(length), buffer_id),
    decreases buffers.len() - length,
{
    if length < buffers.len() {
        assert(buffers.take(length + 1).drop_last() =~= buffers.take(length));
        state_of_prefix(buffers, buffer_id, length + 1);
    } else {
        assert(buffers.take(length) =~= buffers);
    }
}

fn find_state(buffers: &Vec<CaptureBufferInfo>, buffer_id: NonZeroU32) -> (state: Option<
    CaptureBufferState,
>)
    ensures
        state == state_of(buffers@, buffer_id),
{
    let mut index: usize = 0;
    proof {
        assert(buffers@.take(0) =~= Seq::empty());
    }
    while index < buffers.len()
        invariant
            index <= buffers@.len(),
            state_of(buffers@.take(index as int), buffer_id) is None,
        decreases buffers@.len() - index,
    {
        proof {
            assert(buffers@.take(index + 1).drop_last() =~= buffers@.take(index as int));
            assert(buffers@.take(index + 1).last() == buffers@[index as int]);
        }
        if buffers[index].buffer_id == buffer_id {
            proof {
                state_of_prefix(buffers@, buffer_id, index + 1);
            }
            return Some(buffers[index].state);
        }
        index += 1;
    }
    proof {
        assert(buffers@.take(index as int) =~= buffers@);
    }
    None
}

/// What a request that is still out waits for.
pub open spec fn drains(
    buffers: Seq<CaptureBufferInfo>,
    buffer_id: NonZeroU32,
    expired: bool,
    step: DrainStep,
) -> bool {
    match state_of(buffers, buffer_id) {
        None => step matches DrainStep::Fail(error) && error@ == kernel_error(
            "drain CastKMS capture"@,
            "queued buffer disappeared during teardown"@,
        ),
        Some(state) => if expired {
            step matches DrainStep::Fail(error) && error@ == kernel_error(
                "drain CastKMS capture"@,
                "timed out waiting for canceled capture completion"@,
            )
        } else {
            match state {
                CaptureBufferState::Completed => step == DrainStep::TakeCompletion,
                CaptureBufferState::Queued => step == DrainStep::AwaitEvents,
                _ => step matches DrainStep::Fail(error) && error@ == kernel_error(
                    "drain CastKMS capture"@,
                    "queued buffer entered unexpected state "@ + state_name(state),
                ),
            }
        },
    }
}

/// Decide about a request that is still out, given the buffers of its stream
/// and whether its time is up.
pub fn drain_outstanding_capture(
    buffers: &Vec<CaptureBufferInfo>,
    buffer_id: NonZeroU32,
    expired: bool,
) -> (step: DrainStep)
    ensures
        drains(buffers@, buffer_id, expired, step),
{
    let operation = "drain CastKMS capture";
    match find_state(buffers, buffer_id) {
        None => DrainStep::Fail(
            KernelDisplayError::new(operation, "queued buffer disappeared during teardown"),
        ),
        Some(state) => {
            if expired {
                return DrainStep::Fail(
                    KernelDisplayError::new(
                        operation,
                        "timed out waiting for canceled capture completion",
                    ),
                );
            }
            let name = match state {
                CaptureBufferState::Completed => {
                    return DrainStep::TakeCompletion;
                },
                CaptureBufferState::Queued => {
                    return DrainStep::AwaitEvents;
                },
                CaptureBufferState::Idle => "Idle",
                CaptureBufferState::ConsumerOwned => "ConsumerOwned",
            };
            DrainStep::Fail(
                KernelDisplayError {
                    operation,
                    message: concat("queued buffer entered unexpected state ", name),
                },
            )
        },
    }
}

/// Take in the wait for the buffer of a request that is done.
pub fn drained_readiness(outcome: TimedOutcome) -> (result: Result<(), KernelDisplayError>)
    ensures
        match outcome {
            TimedOutcome::Done => result is Ok,
            TimedOutcome::Failed(text) => result is Err && result->Err_0@ == kernel_error(
                "wait for drained CastKMS capture readiness"@,
                text@,
            ),
            TimedOutcome::TimedOut => result is Err && result->Err_0@ == kernel_error(
                "drain CastKMS capture"@,
                "timed out waiting for capture-buffer readiness"@,
            ),
        },
{
    match outcome {
        TimedOutcome::Done => Ok(()),
        TimedOutcome::Failed(text) => Err(
            KernelDisplayError {
                operation: "wait for drained CastKMS capture readiness",
                message: text,
            },
        ),
        TimedOutcome::TimedOut => Err(
            KernelDisplayError::new(
                "drain CastKMS capture",
                "timed out waiting for capture-buffer readiness",
            ),
        ),
    }
}

/// Take in the wait for the kernel's events.
pub fn drained_events(outcome: TimedOutcome) -> (result: Result<(), KernelDisplayError>)
    ensures
        match outcome {
            TimedOutcome::Done => result is Ok,
            TimedOutcome::Failed(text) => result is Err && result->Err_0@ == kernel_error(
                "drain CastKMS event stream"@,
                text@,
            ),
            TimedOutcome::TimedOut => result is Err && result->Err_0@ == kernel_error(
                "drain CastKMS capture"@,
                "timed out waiting for canceled capture event"@,
            ),
        },
{
    match outcome {
        TimedOutcome::Done => Ok(()),
        TimedOutcome::Failed(text) => Err(
            KernelDisplayError { operation: "drain CastKMS event stream", message: text },
        ),
        TimedOutcome::TimedOut => Err(
            KernelDisplayError::new(
                "drain CastKMS capture",
                "timed out waiting for canceled capture event",
            ),
        ),
    }
}

/// What came of the parts of a stop, in the order in which they are done.
#[derive(Debug)]
pub struct StopReport {
    /// The source, if it was still running.
    pub source: Option<SourceStop>,
    /// The buffers that consumers owned before capture stopped.
    pub early_releases: Vec<(NonZeroU32, Result<(), String>)>,
    /// Capture, if the stream was still the active one.
    pub capture: Option<Result<(), String>>,
    /// The requests that were still out.
    pub drained: Vec<Result<(), KernelDisplayError>>,
    /// The buffers that consumers owned afterwards.
    pub late_releases: Vec<(NonZeroU32, Result<(), String>)>,
    /// The pool.
    pub pool: Result<(), String>,
}

/// The failures of a list of releases.
pub open spec fn release_failures(releases: Seq<(NonZeroU32, Result<(), String>)>) -> Seq<Seq<char>>
    decreases releases.len(),
{
    if releases.len() == 0 {
        Seq::empty()
    } else {
        release_failures(releases.drop_last()) + labelled(
            release_label(releases.last().0),
            releases.last().1,
        )
    }
}

/// The failures of a list of drained requests.
pub open spec fn drain_failures(drained: Seq<Result<(), KernelDisplayError>>) -> Seq<Seq<char>>
    decreases drained.len(),
{
    if drained.len() == 0 {
        Seq::empty()
    } else {
        drain_failures(drained.drop_last()) + match drained.last() {
            Ok(_) => Seq::empty(),
            Err(error) => seq![error@.text()],
        }
    }
}

/// Every failure of a stop, in order.
pub open spec fn stop_failures(identity: IdentityView, report: StopReport) -> Seq<Seq<char>> {
    (match report.source {
        Some(outcome) => source_failures(identity, outcome),
        None => Seq::empty(),
    }) + release_failures(report.early_releases@) + (match report.capture {
        Some(reply) => labelled("stop CastKMS capture: "@, reply),
        None => Seq::empty(),
    }) + drain_failures(report.drained@) + release_failures(report.late_releases@) + labelled(
        "destroy retired CastKMS capture pool: "@,
        report.pool,
    )
}

fn note_releases(
    releases: Vec<(NonZeroU32, Result<(), String>)>,
    failures: &mut Vec<String>,
)
    ensures
        texts_view(final(failures)@) == texts_view(old(failures)@) + release_failures(releases@),
{
    let ghost before = texts_view(failures@);
    let mut index: usize = 0;
    proof {
        assert(releases@.take(0) =~= Seq::empty());
        assert(before + release_failures(releases@.take(0)) =~= before);
    }
    while index < releases.len()
        invariant
            index <= releases@.len(),
            texts_view(failures@) == before + release_failures(releases@.take(index as int)),
        decreases releases@.len() - index,
    {
        let buffer_id = releases[index].0;
        let reply = clone_reply(&releases[index].1);
        release_consumer_owned(buffer_id, reply, failures);
        proof {
            let upto = releases@.take(index + 1);
            assert(upto.drop_last() =~= releases@.take(index as int));
            assert(upto.last() == releases@[index as int]);
            assert(texts_view(failures@) =~= before + release_failures(upto));
        }
        index += 1;
    }
    proof {
        assert(releases@.take(index as int) =~= releases@);
    }
}

fn clone_reply(reply: &Result<(), String>) -> (copy: Result<(), String>)
    ensures
        copy == *reply,
{
    match reply {
        Ok(done) => Ok(*done),
        Err(text) => Err(text.clone()),
    }
}

fn note_drained(drained: &Vec<Result<(), KernelDisplayError>>, failures: &mut Vec<String>)
    ensures
        texts_view(final(failures)@) == texts_view(old(failures)@) + drain_failures(drained@),
{
    let ghost before = texts_view(failures@);
    let mut index: usize = 0;
    proof {
        assert(drained@.take(0) =~= Seq::empty());
        assert(before + drain_failures(drained@.take(0)) =~= before);
    }
    while index < drained.len()
        invariant
            index <= drained@.len(),
            texts_view(failures@) == before + drain_failures(drained@.take(index as int)),
        decreases drained@.len() - index,
    {
        if let Err(error) = &drained[index] {
            note(failures, error.to_text());
        }
        proof {
            let upto = drained@.take(index + 1);
            assert(upto.drop_last() =~= drained@.take(index as int));
            assert(upto.last() == drained@[index as int]);
            assert(texts_view(failures@) =~= before + drain_failures(upto));
        }
        index += 1;
    }
    proof {
        assert(drained@.take(index as int) =~= drained@);
    }
}

/// What is told of a stop.
pub open spec fn tells_stop(
    identity: IdentityView,
    report: StopReport,
    result: Result<(), KernelDisplayError>,
) -> bool {
    &&& result is Ok <==> stop_failures(identity, report).len() == 0
    &&& result matches Err(error) ==> error@ == kernel_error(
        "stop capture generation"@,
        joined(stop_failures(identity, report), "; "@),
    )
}

/// The result of a stop: every part is tried, and every failure is told.
pub fn stop_active(identity: &VideoNodeIdentity, report: StopReport) -> (result: Result<
    (),
    KernelDisplayError,
>)
    ensures
        tells_stop(identity@, report, result),
{
    let mut failures: Vec<String> = Vec::new();
    let ghost expected = stop_failures(identity@, report);
    proof {
        assert(texts_view(failures@) =~= Seq::empty());
    }
    if let Some(outcome) = report.source {
        note_source_stop(identity, outcome, &mut failures);
    }
    note_releases(report.early_releases, &mut failures);
    if let Some(reply) = report.capture {
        note_reply("stop CastKMS capture: ", reply, &mut failures);
    }
    note_drained(&report.drained, &mut failures);
    note_releases(report.late_releases, &mut failures);
    note_reply("destroy retired CastKMS capture pool: ", report.pool, &mut failures);
    proof {
        assert(texts_view(failures@) =~= expected);
    }
    combined_kernel_failures("stop capture generation", failures)
}

/// Whether a stop has to stop capture: only the stream that still captures.
pub fn stop_needs_capture_stop(active: Option<CaptureStreamInfo>, stream: CaptureStreamInfo) -> (needed:
    bool)
    ensures
        needed == (active == Some(stream)),
{
    match active {
        Some(active) => active == stream,
        None => false,
    }
}

/// What a failed generation is reported with, and what its owner is told.
#[derive(Debug, PartialEq, Eq)]
pub struct FailureReport {
    pub diagnostic: String,
    pub result: Result<(), KernelDisplayError>,
}

/// What is told of a generation that failed, and of its cleanup.
pub open spec fn tells_recovery(
    error: String,
    cleanup: Result<(), KernelDisplayError>,
    report: FailureReport,
) -> bool {
    match cleanup {
        Ok(_) => {
            &&& report.diagnostic == error
            &&& report.result is Ok
        },
        Err(failure) => {
            &&& report.diagnostic@ == error@ + "; cleanup also failed: "@ + failure@.text()
            &&& report.result is Err
            &&& report.result->Err_0@ == kernel_error(
                "recover failed media generation"@,
                "cleanup failed after media error: "@ + failure@.text(),
            )
        },
    }
}

/// The report of a generation that failed with `error`, once it was stopped.
///
/// A generation that cannot be cleaned up ends its owner.
pub fn fail_active(error: String, cleanup: Result<(), KernelDisplayError>) -> (report: FailureReport)
    ensures
        tells_recovery(error, cleanup, report),
{
    match cleanup {
        Ok(()) => FailureReport { diagnostic: error, result: Ok(()) },
        Err(failure) => {
            let text = failure.to_text();
            let mut diagnostic = concat(error.as_str(), "; cleanup also failed: ");
            diagnostic.append(text.as_str());
            FailureReport {
                diagnostic,
                result: Err(
                    KernelDisplayError {
                        operation: "recover failed media generation",
                        message: concat("cleanup failed after media error: ", text.as_str()),
                    },
                ),
            }
        },
    }
}

/// A stop that meets no failure succeeds, also where the source had stopped by
/// itself.
pub proof fn clean_stops_succeed(identity: IdentityView, report: StopReport)
    requires
        report.source is Some ==> (report.source->0 == SourceStop::NoActiveGeneration
            || (report.source->0 matches SourceStop::Stopped(stopped) && stopped@ == identity)),
        report.early_releases@.len() == 0,
        report.late_releases@.len() == 0,
        report.drained@.len() == 0,
        report.capture is Some ==> report.capture->0 is Ok,
        report.pool is Ok,
    ensures
        stop_failures(identity, report).len() == 0,
{
}

/// Exactly the buffers that a consumer owns are given back, in their order, whatever is
/// listed around them.
pub proof fn buffers_of_consumers_are_given_back(
    left: Seq<CaptureBufferInfo>,
    right: Seq<CaptureBufferInfo>,
    buffer: CaptureBufferInfo,
)
    ensures
        owned_by_consumer(left + right) == owned_by_consumer(left) + owned_by_consumer(right),
        buffer.state is ConsumerOwned ==> owned_by_consumer(seq![buffer]) == seq![buffer.buffer_id],
        !(buffer.state is ConsumerOwned) ==> owned_by_consumer(seq![buffer]).len() == 0,
    decreases right.len(),
{
    let one = seq![buffer];
    assert(one.drop_last() =~= Seq::empty());
    assert(owned_by_consumer(one.drop_last()) == Seq::<NonZeroU32>::empty());
    assert(owned_by_consumer(one) =~= (if buffer.state is ConsumerOwned {
        seq![buffer.buffer_id]
    } else {
        Seq::empty()
    }));
    if right.len() > 0 {
        buffers_of_consumers_are_given_back(left, right.drop_last(), buffer);
        assert((left + right).drop_last() =~= left + right.drop_last());
        assert((left + right).last() == right.last());
        assert(owned_by_consumer(left + right) =~= owned_by_consumer(left) + owned_by_consumer(
            right,
        ));
    } else {
        assert(left + right =~= left);
        assert(owned_by_consumer(left) + owned_by_consumer(right) =~= owned_by_consumer(left));
    }
}

/// The state of a buffer is that of its first entry.
pub proof fn buffers_are_in_their_listed_state(
    buffers: Seq<CaptureBufferInfo>,
    buffer_id: NonZeroU32,
    place: int,
)
    ensures
        state_of(buffers, buffer_id) is None <==> forall|i: int|
            0 <= i < buffers.len() ==> (#[trigger] buffers[i]).buffer_id != buffer_id,
        0 <= place < buffers.len() && buffers[place].buffer_id == buffer_id && (forall|i: int|
            0 <= i < place ==> (#[trigger] buffers[i]).buffer_id != buffer_id) ==> state_of(
            buffers,
            buffer_id,
        ) == Some(buffers[place].state),
    decreases buffers.len(),
{
    if buffers.len() > 0 {
        let earlier = buffers.drop_last();
        buffers_are_in_their_listed_state(earlier, buffer_id, place);
        assert forall|i: int| 0 <= i < earlier.len() implies earlier[i] == buffers[i] by {}
        if state_of(buffers, buffer_id) is None {
            assert forall|i: int| 0 <= i < buffers.len() implies (
            #[trigger] buffers[i]).buffer_id != buffer_id by {
                if i < earlier.len() {
                    assert(earlier[i].buffer_id != buffer_id);
                }
            }
        } else if state_of(earlier, buffer_id) is Some {
            let i = choose|i: int|
                0 <= i < earlier.len() && (#[trigger] earlier[i]).buffer_id == buffer_id;
            assert(buffers[i].buffer_id == buffer_id);
        } else {
            assert(buffers[buffers.len() - 1].buffer_id == buffer_id);
        }
        if 0 <= place < buffers.len() && buffers[place].buffer_id == buffer_id && (forall|i: int|
            0 <= i < place ==> (#[trigger] buffers[i]).buffer_id != buffer_id) {
            if place < earlier.len() {
                assert(earlier[place] == buffers[place]);
                assert(forall|i: int|
                    0 <= i < place ==> (#[trigger] earlier[i]).buffer_id != buffer_id);
            }
        }
    }
}

/// A request that is out is taken once it is complete and awaited while it is queued;
/// anything else fails, and so does whatever took too long.
pub proof fn requests_are_drained_in_time(
    buffers: Seq<CaptureBufferInfo>,
    buffer_id: NonZeroU32,
    expired: bool,
    step: DrainStep,
)
    requires
        drains(buffers, buffer_id, expired, step),
    ensures
        ({
            let state = state_of(buffers, buffer_id);
            &&& step is TakeCompletion <==> !expired && state is Some && state->0 is Completed
            &&& step is AwaitEvents <==> !expired && state is Some && state->0 is Queued
        }),
{
}

/// The failures of a stop are those of its parts, each told in turn, and a stop
/// succeeds exactly if all its parts did: the source as the one it was, every buffer,
/// the capture, every request, and the pool.
pub proof fn stops_tell_every_failure(
    identity: IdentityView,
    report: StopReport,
    result: Result<(), KernelDisplayError>,
)
    requires
        tells_stop(identity, report, result),
    ensures
        result is Ok <==> {
            &&& report.source is Some ==> (report.source->0 is NoActiveGeneration || (
            report.source->0 is Stopped && report.source->0->Stopped_0@ == identity))
            &&& forall|i: int|
                0 <= i < report.early_releases@.len() ==> (#[trigger] report.early_releases@[i]).1
                    is Ok
            &&& report.capture is Some ==> report.capture->0 is Ok
            &&& forall|i: int|
                0 <= i < report.drained@.len() ==> (#[trigger] report.drained@[i]) is Ok
            &&& forall|i: int|
                0 <= i < report.late_releases@.len() ==> (#[trigger] report.late_releases@[i]).1
                    is Ok
            &&& report.pool is Ok
        },
{
    releases_fail_one_by_one(report.early_releases@);
    releases_fail_one_by_one(report.late_releases@);
    drains_fail_one_by_one(report.drained@);
}

/// Releases fail one by one: there is no failure exactly where every buffer was
/// released.
pub proof fn releases_fail_one_by_one(releases: Seq<(NonZeroU32, Result<(), String>)>)
    ensures
        release_failures(releases).len() == 0 <==> forall|i: int|
            0 <= i < releases.len() ==> (#[trigger] releases[i]).1 is Ok,
        release_failures(releases).len() <= releases.len(),
        releases.len() > 0 && releases.last().1 is Err ==> {
            let text = release_failures(releases).last();
            let why = releases.last().1->Err_0@;
            text.skip(text.len() - why.len()) == why
        },
    decreases releases.len(),
{
    if releases.len() > 0 {
        let earlier = releases.drop_last();
        releases_fail_one_by_one(earlier);
        assert forall|i: int| 0 <= i < earlier.len() implies earlier[i] == releases[i] by {}
        if release_failures(releases).len() == 0 {
            assert forall|i: int| 0 <= i < releases.len() implies (
            #[trigger] releases[i]).1 is Ok by {
                if i < earlier.len() {
                    assert(earlier[i].1 is Ok);
                }
            }
        }
        if forall|i: int| 0 <= i < releases.len() ==> (#[trigger] releases[i]).1 is Ok {
            assert forall|i: int| 0 <= i < earlier.len() implies (
            #[trigger] earlier[i]).1 is Ok by {
                assert(releases[i].1 is Ok);
            }
            assert(releases[releases.len() - 1].1 is Ok);
        }
        if releases.last().1 is Err {
            let text = release_failures(releases).last();
            let why = releases.last().1->Err_0@;
            assert(text =~= release_label(releases.last().0) + why);
            assert(text.skip(text.len() - why.len()) =~= why);
        }
    }
}

proof fn drains_fail_one_by_one(drained: Seq<Result<(), KernelDisplayError>>)
    ensures
        drain_failures(drained).len() == 0 <==> forall|i: int|
            0 <= i < drained.len() ==> (#[trigger] drained[i]) is Ok,
    decreases drained.len(),
{
    if drained.len() > 0 {
        let earlier = drained.drop_last();
        drains_fail_one_by_one(earlier);
        assert forall|i: int| 0 <= i < earlier.len() implies earlier[i] == drained[i] by {}
        if drain_failures(drained).len() == 0 {
            assert forall|i: int| 0 <= i < drained.len() implies (#[trigger] drained[i]) is Ok by {
                if i < earlier.len() {
                    assert(earlier[i] is Ok);
                }
            }
        }
        if forall|i: int| 0 <= i < drained.len() ==> (#[trigger] drained[i]) is Ok {
            assert forall|i: int| 0 <= i < earlier.len() implies (#[trigger] earlier[i]) is Ok by {
                assert(drained[i] is Ok);
            }
            assert(drained[drained.len() - 1] is Ok);
        }
    }
}

/// A failed generation tells its error; a cleanup that failed too is added to that, and
/// is a failure of its own.
pub proof fn failed_cleanups_are_added(
    error: String,
    cleanup: Result<(), KernelDisplayError>,
    report: FailureReport,
)
    requires
        tells_recovery(error, cleanup, report),
    ensures
        report.result is Ok <==> cleanup is Ok,
        error@.is_prefix_of(report.diagnostic@),
        cleanup is Ok <==> report.diagnostic@ == error@,
        cleanup is Err ==> ({
            let why = cleanup->Err_0@.text();
            let message = report.result->Err_0@.message;
            &&& report.diagnostic@.skip(report.diagnostic@.len() - why.len()) == why
            &&& message.skip(message.len() - why.len()) == why
        }),
{
    if cleanup is Err {
        reveal_strlit("; cleanup also failed: ");
        let why = cleanup->Err_0@.text();
        let message = report.result->Err_0@.message;
        assert(report.diagnostic@.len() > error@.len());
        assert(report.diagnostic@.skip(report.diagnostic@.len() - why.len()) =~= why);
        assert(message.skip(message.len() - why.len()) =~= why);
    }
}

} // verus!
