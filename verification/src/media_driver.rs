//! Ordering policy of a display's media session.
//!
//! One capture owner, one minter of media connections and one prepared device
//! session work together. What each of them replies is handed back here, and
//! every duty of cleanup is recorded before anything is asked of them.

use crate::device_session_port::{
    DeviceMediaKind, DeviceMediaSetup, DeviceMediaStopReason, DeviceMediaSuspendReason,
    DeviceMediaTarget, DeviceSessionStopReason,
};
use crate::media_pipeline_port::PreparedCaptureMedia;
use crate::media_session::{
    MediaDriverError, MediaStartRequest, MediaStopReason, MediaSuspendReason,
};
use crate::nonzero::{nonzero_u64_ext, NonZeroU64};
use crate::text::{concat, decimal, join, joined, push_decimal, texts_view};
use vstd::prelude::*;
use vstd::string::*;

verus! {

broadcast use nonzero_u64_ext;

/// What came of an operation that may be cancelled.
#[derive(Debug, PartialEq, Eq)]
pub enum PortOutcome<T> {
    Done(T),
    Failed(String),
    Cancelled,
}

/// The diagnostic of an operation that was not done.
pub open spec fn outcome_error<T>(operation: Seq<char>, outcome: PortOutcome<T>) -> Seq<char> {
    match outcome {
        PortOutcome::Failed(error) => operation + " failed: "@ + error@,
        _ => operation + " was cancelled"@,
    }
}

/// What an operation yields, or why it was not done.
pub fn cancellable<T>(operation: &str, outcome: PortOutcome<T>) -> (result: Result<
    T,
    MediaDriverError,
>)
    ensures
        match outcome {
            PortOutcome::Done(value) => result == Ok::<T, MediaDriverError>(value),
            _ => result is Err && result->Err_0.0@ == outcome_error(operation@, outcome),
        },
{
    match outcome {
        PortOutcome::Done(value) => Ok(value),
        PortOutcome::Failed(error) => {
            let mut text = concat(operation, " failed: ");
            text.append(error.as_str());
            Err(MediaDriverError(text))
        },
        PortOutcome::Cancelled => Err(MediaDriverError(concat(operation, " was cancelled"))),
    }
}

/// Which cleanup a generation still needs.
#[derive(Debug, Clone, Copy, PartialEq, Eq, Structural)]
pub enum CleanupRemaining {
    Capture,
    Backend,
    Both,
}

impl CleanupRemaining {
    pub open spec fn needs_capture(self) -> bool {
        self != CleanupRemaining::Backend
    }

    pub open spec fn needs_backend(self) -> bool {
        self != CleanupRemaining::Capture
    }

    pub fn capture(self) -> (needed: bool)
        ensures
            needed == self.needs_capture(),
    {
        matches!(self, CleanupRemaining::Capture | CleanupRemaining::Both)
    }

    pub fn backend(self) -> (needed: bool)
        ensures
            needed == self.needs_backend(),
    {
        matches!(self, CleanupRemaining::Backend | CleanupRemaining::Both)
    }

    pub fn without_capture(self) -> (rest: Option<Self>)
        ensures
            rest == (if self.needs_backend() {
                Some(CleanupRemaining::Backend)
            } else {
                None
            }),
    {
        match self {
            CleanupRemaining::Capture => None,
            CleanupRemaining::Backend | CleanupRemaining::Both => Some(CleanupRemaining::Backend),
        }
    }

    pub fn without_backend(self) -> (rest: Option<Self>)
        ensures
            rest == (if self.needs_capture() {
                Some(CleanupRemaining::Capture)
            } else {
                None
            }),
    {
        match self {
            CleanupRemaining::Backend => None,
            CleanupRemaining::Capture | CleanupRemaining::Both => Some(CleanupRemaining::Capture),
        }
    }
}

/// How far one media generation is.
#[derive(Debug, PartialEq, Eq)]
pub enum DriverMediaPhase {
    Idle,
    StartingCapture(NonZeroU64),
    Prepared(PreparedCaptureMedia),
    BackendPending(NonZeroU64),
    Cleanup { generation: NonZeroU64, remaining: CleanupRemaining },
}

impl DriverMediaPhase {
    /// The generation that the capture owner may hold something for.
    pub open spec fn held_by_capture(self) -> Option<NonZeroU64> {
        match self {
            DriverMediaPhase::Idle => None,
            DriverMediaPhase::StartingCapture(generation) => Some(generation),
            DriverMediaPhase::Prepared(prepared) => Some(prepared.media_generation),
            DriverMediaPhase::BackendPending(generation) => Some(generation),
            DriverMediaPhase::Cleanup { generation, remaining } => if remaining.needs_capture() {
                Some(generation)
            } else {
                None
            },
        }
    }

    /// The generation that the backend may hold something for.
    pub open spec fn held_by_backend(self) -> Option<NonZeroU64> {
        match self {
            DriverMediaPhase::BackendPending(generation) => Some(generation),
            DriverMediaPhase::Cleanup { generation, remaining } => if remaining.needs_backend() {
                Some(generation)
            } else {
                None
            },
            _ => None,
        }
    }

    /// The phase in which everything that is held is to be cleaned up.
    pub open spec fn cleaning(self) -> DriverMediaPhase {
        match self {
            DriverMediaPhase::Idle => DriverMediaPhase::Idle,
            DriverMediaPhase::StartingCapture(generation) => DriverMediaPhase::Cleanup {
                generation,
                remaining: CleanupRemaining::Capture,
            },
            DriverMediaPhase::Prepared(prepared) => DriverMediaPhase::Cleanup {
                generation: prepared.media_generation,
                remaining: CleanupRemaining::Capture,
            },
            DriverMediaPhase::BackendPending(generation) => DriverMediaPhase::Cleanup {
                generation,
                remaining: CleanupRemaining::Both,
            },
            cleanup => cleanup,
        }
    }

    /// The phase once the capture owner has cleaned up.
    pub open spec fn capture_cleaned(self) -> DriverMediaPhase {
        match self {
            DriverMediaPhase::Cleanup { generation, remaining } => if remaining.needs_backend() {
                DriverMediaPhase::Cleanup { generation, remaining: CleanupRemaining::Backend }
            } else {
                DriverMediaPhase::Idle
            },
            other => other,
        }
    }

    /// The phase once the backend has cleaned up.
    pub open spec fn backend_cleaned(self) -> DriverMediaPhase {
        match self {
            DriverMediaPhase::Cleanup { generation, remaining } => if remaining.needs_capture() {
                DriverMediaPhase::Cleanup { generation, remaining: CleanupRemaining::Capture }
            } else {
                DriverMediaPhase::Idle
            },
            other => other,
        }
    }

    pub fn capture_generation(&self) -> (generation: Option<NonZeroU64>)
        ensures
            generation == self.held_by_capture(),
    {
        match self {
            DriverMediaPhase::Idle => None,
            DriverMediaPhase::StartingCapture(generation)
            | DriverMediaPhase::BackendPending(generation) => Some(*generation),
            DriverMediaPhase::Prepared(prepared) => Some(prepared.media_generation),
            DriverMediaPhase::Cleanup { generation, remaining } => if remaining.capture() {
                Some(*generation)
            } else {
                None
            },
        }
    }

    pub fn backend_generation(&self) -> (generation: Option<NonZeroU64>)
        ensures
            generation == self.held_by_backend(),
    {
        match self {
            DriverMediaPhase::BackendPending(generation) => Some(*generation),
            DriverMediaPhase::Cleanup { generation, remaining } => if remaining.backend() {
                Some(*generation)
            } else {
                None
            },
            _ => None,
        }
    }

    pub fn begin_cleanup(&mut self)
        ensures
            *final(self) == old(self).cleaning(),
    {
        let next = match self {
            DriverMediaPhase::Idle => None,
            DriverMediaPhase::StartingCapture(generation) => Some(
                DriverMediaPhase::Cleanup {
                    generation: *generation,
                    remaining: CleanupRemaining::Capture,
                },
            ),
            DriverMediaPhase::Prepared(prepared) => Some(
                DriverMediaPhase::Cleanup {
                    generation: prepared.media_generation,
                    remaining: CleanupRemaining::Capture,
                },
            ),
            DriverMediaPhase::BackendPending(generation) => Some(
                DriverMediaPhase::Cleanup {
                    generation: *generation,
                    remaining: CleanupRemaining::Both,
                },
            ),
            DriverMediaPhase::Cleanup { .. } => None,
        };
        if let Some(next) = next {
            *self = next;
        }
    }

    pub fn complete_capture_cleanup(&mut self)
        ensures
            *final(self) == old(self).capture_cleaned(),
    {
        if let DriverMediaPhase::Cleanup { generation, remaining } = self {
            let generation = *generation;
            let rest = remaining.without_capture();
            *self = match rest {
                Some(remaining) => DriverMediaPhase::Cleanup { generation, remaining },
                None => DriverMediaPhase::Idle,
            };
        }
    }

    pub fn complete_backend_cleanup(&mut self)
        ensures
            *final(self) == old(self).backend_cleaned(),
    {
        if let DriverMediaPhase::Cleanup { generation, remaining } = self {
            let generation = *generation;
            let rest = remaining.without_backend();
            *self = match rest {
                Some(remaining) => DriverMediaPhase::Cleanup { generation, remaining },
                None => DriverMediaPhase::Idle,
            };
        }
    }
}

#[derive(Debug, PartialEq, Eq)]
pub enum DriverLifecycle {
    Live(DriverMediaPhase),
    Shutdown,
}

/// The state of a media session driver.
///
/// A final shutdown takes the device owner before both cleanups are awaited,
/// so capture cleanup can be pending without a device.
#[derive(Debug, PartialEq, Eq)]
pub struct ProductionMediaSessionDriver {
    device_present: bool,
    lifecycle: DriverLifecycle,
}

/// The contents of a [`ProductionMediaSessionDriver`].
pub struct DriverView {
    pub device_present: bool,
    pub lifecycle: DriverLifecycle,
}

impl View for ProductionMediaSessionDriver {
    type V = DriverView;

    closed spec fn view(&self) -> DriverView {
        DriverView { device_present: self.device_present, lifecycle: self.lifecycle }
    }
}

impl DriverView {
    pub open spec fn live(self) -> bool {
        self.device_present && self.lifecycle is Live
    }

    pub open spec fn phase(self) -> DriverMediaPhase {
        self.lifecycle->Live_0
    }

    pub open spec fn in_phase(self, phase: DriverMediaPhase) -> DriverView {
        DriverView { lifecycle: DriverLifecycle::Live(phase), ..self }
    }
}

/// A generation as an optional number, in words.
pub open spec fn optional_generation(generation: Option<NonZeroU64>) -> Seq<char> {
    match generation {
        Some(generation) => "Some("@ + decimal(generation@ as nat) + ")"@,
        None => "None"@,
    }
}

/// The refusal of an operation on a generation that is not the active one.
pub open spec fn mismatch(
    operation: Seq<char>,
    active: Option<NonZeroU64>,
    requested: u64,
) -> Seq<char> {
    operation + " requested generation "@ + decimal(requested as nat) + "; active generation is "@
        + optional_generation(active)
}

/// What is wrong with prepared media, if anything.
pub open spec fn prepared_fault(prepared: PreparedCaptureMedia, request: MediaStartRequest) -> Option<
    Seq<char>,
> {
    if request.media_generation == 0 {
        Some("media generation must be nonzero"@)
    } else if prepared.media_generation@ != request.media_generation
        || prepared.video_target.media_generation@ != request.media_generation || (
    prepared.audio_target matches Some(target) && target.media_generation@
        != request.media_generation) {
        Some("capture pipeline returned a stale media generation"@)
    } else if prepared.video_target.kind != DeviceMediaKind::Video || (
    prepared.audio_target matches Some(target) && target.kind != DeviceMediaKind::Audio) {
        Some("capture pipeline returned an invalid target ordering"@)
    } else if prepared.audio_target is Some != prepared.configuration.audio_profile_id is Some {
        Some("capture targets and negotiated audio profile disagree"@)
    } else if prepared.configuration.mode != request.route.mode {
        Some("capture media mode differs from the active kernel route"@)
    } else {
        None
    }
}

/// What a stop has to do with one owner.
#[derive(Debug, PartialEq, Eq)]
pub enum StopDuty {
    Nothing,
    Refused(String),
    Stop,
}

/// A stop under way: the generation, why it stops, and what failed so far.
#[derive(Debug, PartialEq, Eq)]
pub struct StopRun {
    pub generation: NonZeroU64,
    pub reason: MediaStopReason,
    pub failures: Vec<String>,
}

/// How a stop goes on.
#[derive(Debug, PartialEq, Eq)]
pub enum StopAction {
    /// Stop at the backend, which is told the reason in its own words.
    StopBackend { run: StopRun, reason: DeviceMediaStopReason },
    StopCapture(StopRun),
    Ended(Result<(), MediaDriverError>),
}

/// The result tells every failure, in order.
pub open spec fn tells_failures(
    result: Result<(), MediaDriverError>,
    failures: Seq<Seq<char>>,
) -> bool {
    &&& result is Ok <==> failures.len() == 0
    &&& result matches Err(error) ==> error.0@ == joined(failures, "; "@)
}

/// The stop ends with these failures.
pub open spec fn stop_ends(action: StopAction, failures: Seq<Seq<char>>) -> bool {
    action matches StopAction::Ended(result) && tells_failures(result, failures)
}

/// The stop goes on at the capture owner, if that holds the generation.
pub open spec fn stops_capture(
    driver: DriverView,
    generation: NonZeroU64,
    reason: MediaStopReason,
    failures: Seq<Seq<char>>,
    action: StopAction,
) -> bool {
    match driver.phase().held_by_capture() {
        None => stop_ends(action, failures),
        Some(active) => if active == generation {
            action matches StopAction::StopCapture(run) && run.generation == generation
                && run.reason == reason && texts_view(run.failures@) == failures
        } else {
            stop_ends(
                action,
                failures.push(mismatch("stop capture pipeline"@, Some(active), generation@)),
            )
        },
    }
}

/// The stop begins at the backend, if that holds the generation and can still
/// be asked.
pub open spec fn stops_backend(
    driver: DriverView,
    media_generation: u64,
    reason: MediaStopReason,
    action: StopAction,
) -> bool {
    exists|generation: NonZeroU64|
        {
            &&& #[trigger] generation@ == media_generation
            &&& match driver.phase().held_by_backend() {
                None => stops_capture(driver, generation, reason, Seq::empty(), action),
                Some(active) => if active != generation {
                    stops_capture(
                        driver,
                        generation,
                        reason,
                        seq![mismatch("stop backend media"@, Some(active), media_generation)],
                        action,
                    )
                } else if !driver.device_present {
                    stops_capture(
                        driver,
                        generation,
                        reason,
                        seq!["Device session is no longer available"@],
                        action,
                    )
                } else {
                    &&& action matches StopAction::StopBackend { run, reason: told }
                    &&& run.generation == generation
                    &&& run.reason == reason
                    &&& run.failures@.len() == 0
                    &&& told == device_stop_reason(reason)
                },
            }
        }
}

/// The steps of a media start once authority passes to the backend.
#[derive(Debug, Clone, Copy, PartialEq, Eq, Structural)]
pub enum BackendStartStep {
    Configure,
    Activate,
    Start,
}

impl BackendStartStep {
    pub open spec fn operation(self) -> Seq<char> {
        match self {
            BackendStartStep::Configure => "configure backend media"@,
            BackendStartStep::Activate => "activate capture pipeline"@,
            BackendStartStep::Start => "start backend media"@,
        }
    }

    pub open spec fn following(self) -> Option<BackendStartStep> {
        match self {
            BackendStartStep::Configure => Some(BackendStartStep::Activate),
            BackendStartStep::Activate => Some(BackendStartStep::Start),
            BackendStartStep::Start => None,
        }
    }

    /// The step after this one, given what came of it; none when media runs.
    pub fn after(self, outcome: PortOutcome<()>) -> (result: Result<
        Option<BackendStartStep>,
        MediaDriverError,
    >)
        ensures
            match outcome {
                PortOutcome::Done(_) => result == Ok::<_, MediaDriverError>(self.following()),
                _ => result is Err && result->Err_0.0@ == outcome_error(self.operation(), outcome),
            },
    {
        let operation = match self {
            BackendStartStep::Configure => "configure backend media",
            BackendStartStep::Activate => "activate capture pipeline",
            BackendStartStep::Start => "start backend media",
        };
        match cancellable(operation, outcome) {
            Err(error) => Err(error),
            Ok(()) => Ok(
                match self {
                    BackendStartStep::Configure => Some(BackendStartStep::Activate),
                    BackendStartStep::Activate => Some(BackendStartStep::Start),
                    BackendStartStep::Start => None,
                },
            ),
        }
    }
}

/// The steps of a suspension: the backend first, so that it does not starve.
#[derive(Debug, Clone, Copy, PartialEq, Eq, Structural)]
pub enum SuspendStep {
    Backend,
    Capture,
}

impl SuspendStep {
    /// The step after this one, given what came of it; none when suspended.
    pub fn after(self, outcome: PortOutcome<()>) -> (result: Result<
        Option<SuspendStep>,
        MediaDriverError,
    >)
        ensures
            match outcome {
                PortOutcome::Done(_) => result == Ok::<_, MediaDriverError>(
                    if self == SuspendStep::Backend {
                        Some(SuspendStep::Capture)
                    } else {
                        None
                    },
                ),
                _ => result is Err && result->Err_0.0@ == outcome_error(
                    if self == SuspendStep::Backend {
                        "suspend backend media"@
                    } else {
                        "suspend capture pipeline"@
                    },
                    outcome,
                ),
            },
    {
        let operation = match self {
            SuspendStep::Backend => "suspend backend media",
            SuspendStep::Capture => "suspend capture pipeline",
        };
        match cancellable(operation, outcome) {
            Err(error) => Err(error),
            Ok(()) => Ok(
                match self {
                    SuspendStep::Backend => Some(SuspendStep::Capture),
                    SuspendStep::Capture => None,
                },
            ),
        }
    }
}

/// How the capture of a generation was begun.
pub open spec fn capture_begins(
    before: DriverView,
    request: MediaStartRequest,
    after: DriverView,
    result: Result<NonZeroU64, MediaDriverError>,
) -> bool {
    &&& result is Ok <==> {
        &&& before.live()
        &&& request.media_generation != 0
        &&& before.phase() == DriverMediaPhase::Idle
    }
    &&& result matches Ok(generation) ==> {
        &&& generation@ == request.media_generation
        &&& after == before.in_phase(
            DriverMediaPhase::StartingCapture(generation),
        )
    }
    &&& result matches Err(error) ==> {
        &&& after == before
        &&& error.0@ == (if !before.live() {
            "media driver is shut down"@
        } else if request.media_generation == 0 {
            "media generation must be nonzero"@
        } else {
            "a previous media generation still requires cleanup"@
        })
    }
}

/// How the start of the capture was taken in.
pub open spec fn capture_started(
    before: DriverView,
    request: MediaStartRequest,
    outcome: PortOutcome<PreparedCaptureMedia>,
    after: DriverView,
    result: Result<(), MediaDriverError>,
) -> bool {
    match outcome {
        PortOutcome::Done(prepared) => match prepared_fault(prepared, request) {
            None => result is Ok && after == before.in_phase(
                DriverMediaPhase::Prepared(prepared),
            ),
            Some(fault) => {
                &&& result is Err
                &&& result->Err_0.0@ == fault
                &&& after == before
            },
        },
        _ => {
            &&& result is Err
            &&& result->Err_0.0@ == outcome_error("start capture pipeline"@, outcome)
            &&& after == before
        },
    }
}

/// Whether the media of a generation can be started at the backend, and with audio.
pub open spec fn media_begins(
    driver: DriverView,
    request: MediaStartRequest,
    result: Result<(NonZeroU64, bool), MediaDriverError>,
) -> bool {
    &&& result is Ok <==> {
        &&& driver.live()
        &&& request.media_generation != 0
        &&& driver.phase() matches DriverMediaPhase::Prepared(prepared)
            && prepared.media_generation@ == request.media_generation
    }
    &&& result matches Ok((generation, needs_audio)) ==> {
        &&& generation@ == request.media_generation
        &&& needs_audio == driver.phase()->Prepared_0.audio_target is Some
    }
    &&& result matches Err(error) ==> if !driver.live() {
        error.0@ == "media driver is shut down"@
    } else if request.media_generation == 0 {
        error.0@ == "media generation must be nonzero"@
    } else if driver.phase().held_by_capture() matches Some(active) && active@
        == request.media_generation {
        error.0@ == "capture did not return media targets"@
    } else {
        error.0@ == mismatch(
            "start backend media"@,
            driver.phase().held_by_capture(),
            request.media_generation,
        )
    }
}

/// How the prepared media were handed to the backend.
pub open spec fn media_transferred(
    before: DriverView,
    outcome: PortOutcome<bool>,
    after: DriverView,
    result: Result<DeviceMediaSetup, MediaDriverError>,
) -> bool {
    ({
        let prepared = before.phase()->Prepared_0;
        match outcome {
            PortOutcome::Done(has_audio) => if has_audio
                == prepared.audio_target is Some {
                &&& result is Ok
                &&& result->Ok_0.media_generation == prepared.media_generation
                &&& result->Ok_0.configuration == prepared.configuration
                &&& result->Ok_0.targets@ == match prepared.audio_target {
                    Some(audio) => seq![prepared.video_target, audio],
                    None => seq![prepared.video_target],
                }
                &&& after == before.in_phase(
                    DriverMediaPhase::BackendPending(prepared.media_generation),
                )
            } else {
                &&& result is Err
                &&& result->Err_0.0@
                    == "PipeWire remote layout differs from prepared media targets"@
                &&& after == before
            },
            _ => {
                &&& result is Err
                &&& result->Err_0.0@ == outcome_error(
                    "mint backend PipeWire remotes"@,
                    outcome,
                )
                &&& after == before
            },
        }
    })
}

/// Whether a generation can be suspended, and what the backend is told.
pub open spec fn suspension_begins(
    driver: DriverView,
    media_generation: u64,
    reason: MediaSuspendReason,
    result: Result<(NonZeroU64, DeviceMediaSuspendReason), MediaDriverError>,
) -> bool {
    &&& result is Ok <==> {
        &&& driver.live()
        &&& media_generation != 0
        &&& driver.phase().held_by_backend() matches Some(active) && active@
            == media_generation
        &&& driver.phase().held_by_capture() matches Some(active) && active@
            == media_generation
    }
    &&& result matches Ok(order) ==> order.0@ == media_generation && order.1
        == device_suspend_reason(reason)
    &&& result matches Err(error) ==> if !driver.live() {
        error.0@ == "media driver is shut down"@
    } else if media_generation == 0 {
        error.0@ == "media generation must be nonzero"@
    } else {
        error.0@ == mismatch(
            "suspend media"@,
            if driver.phase().held_by_backend() is Some {
                driver.phase().held_by_backend()
            } else {
                driver.phase().held_by_capture()
            },
            media_generation,
        )
    }
}

/// How the stop of a generation was begun.
pub open spec fn stop_begins(
    before: DriverView,
    media_generation: u64,
    after: DriverView,
    result: Result<Option<NonZeroU64>, MediaDriverError>,
) -> bool {
    &&& result is Err <==> media_generation == 0
    &&& result matches Err(error) ==> {
        &&& error.0@ == "media generation must be nonzero"@
        &&& after == before
    }
    &&& result matches Ok(stopping) ==> match before.lifecycle {
        DriverLifecycle::Shutdown => stopping is None && after == before,
        DriverLifecycle::Live(phase) => {
            &&& stopping is Some
            &&& stopping->0@ == media_generation
            &&& after == before.in_phase(phase.cleaning())
        },
    }
}

/// What a stop does first.
pub open spec fn stop_asked(
    before: DriverView,
    media_generation: u64,
    reason: MediaStopReason,
    after: DriverView,
    action: StopAction,
) -> bool {
    if media_generation == 0 {
        &&& after == before
        &&& action matches StopAction::Ended(Err(error)) && error.0@
            == "media generation must be nonzero"@
    } else {
        match before.lifecycle {
            DriverLifecycle::Shutdown => after == before && stop_ends(
                action,
                Seq::empty(),
            ),
            DriverLifecycle::Live(phase) => {
                &&& after == before.in_phase(phase.cleaning())
                &&& stops_backend(after, media_generation, reason, action)
            },
        }
    }
}

/// What a stop does after the backend.
pub open spec fn backend_stop_ended(
    before: DriverView,
    run: StopRun,
    outcome: PortOutcome<()>,
    after: DriverView,
    action: StopAction,
) -> bool {
    match outcome {
        PortOutcome::Done(_) => {
            &&& after == before.in_phase(before.phase().backend_cleaned())
            &&& stops_capture(
                after,
                run.generation,
                run.reason,
                texts_view(run.failures@),
                action,
            )
        },
        _ => {
            &&& after == before
            &&& stops_capture(
                after,
                run.generation,
                run.reason,
                texts_view(run.failures@).push(
                    outcome_error("stop backend media"@, outcome),
                ),
                action,
            )
        },
    }
}

/// How a stop ends after the capture.
pub open spec fn capture_stop_ended(
    before: DriverView,
    run: StopRun,
    outcome: PortOutcome<()>,
    after: DriverView,
    result: Result<(), MediaDriverError>,
) -> bool {
    match outcome {
        PortOutcome::Done(_) => {
            &&& after == before.in_phase(before.phase().capture_cleaned())
            &&& tells_failures(result, texts_view(run.failures@))
        },
        _ => {
            &&& after == before
            &&& tells_failures(
                result,
                texts_view(run.failures@).push(
                    outcome_error("stop capture pipeline"@, outcome),
                ),
            )
        },
    }
}

/// How the shutdown of a driver was begun.
pub open spec fn shutdown_begins(
    before: DriverView,
    reason: MediaStopReason,
    after: DriverView,
    order: Option<(bool, DeviceSessionStopReason)>,
) -> bool {
    match before.lifecycle {
        DriverLifecycle::Shutdown => order is None && after == before,
        DriverLifecycle::Live(_) => {
            &&& order == Some(
                (
                    before.device_present,
                    if reason == MediaStopReason::DisplayRemoved {
                        DeviceSessionStopReason::DisplayRemoved
                    } else {
                        DeviceSessionStopReason::DaemonShutdown
                    },
                ),
            )
            &&& after == (DriverView { device_present: false, ..before })
        },
    }
}

/// How the shutdown of a driver ended.
pub open spec fn shutdown_ended(
    before: DriverView,
    device: Result<(), String>,
    capture: PortOutcome<()>,
    after: DriverView,
    result: Result<(), MediaDriverError>,
) -> bool {
    &&& after == (DriverView { lifecycle: DriverLifecycle::Shutdown, ..before })
    &&& ({
        let first = match device {
            Ok(_) => Seq::empty(),
            Err(error) => seq!["final Device-session stop failed: "@ + error@],
        };
        let failures = match capture {
            PortOutcome::Done(_) => first,
            _ => first.push(outcome_error("shut down capture pipeline"@, capture)),
        };
        &&& result is Ok <==> failures.len() == 0
        &&& result matches Err(error) ==> error.0@ == joined(failures, "; "@)
    })
}

impl ProductionMediaSessionDriver {
    /// A driver with a device session and no media.
    pub fn new() -> (driver: Self)
        ensures
            driver@ == (DriverView {
                device_present: true,
                lifecycle: DriverLifecycle::Live(DriverMediaPhase::Idle),
            }),
    {
        ProductionMediaSessionDriver {
            device_present: true,
            lifecycle: DriverLifecycle::Live(DriverMediaPhase::Idle),
        }
    }

    pub fn ensure_live(&self) -> (result: Result<(), MediaDriverError>)
        ensures
            result is Ok <==> self@.live(),
            result matches Err(error) ==> error.0@ == "media driver is shut down"@,
    {
        if matches!(self.lifecycle, DriverLifecycle::Shutdown) || !self.device_present {
            Err(MediaDriverError::new("media driver is shut down"))
        } else {
            Ok(())
        }
    }

    /// Claim a generation for capture, before the capture owner is asked: a
    /// cancellation can be ambiguous once it has seen the command.
    pub fn begin_start_capture(&mut self, request: MediaStartRequest) -> (result: Result<
        NonZeroU64,
        MediaDriverError,
    >)
        ensures
            capture_begins(old(self)@, request, final(self)@, result),
    {
        if let Err(error) = self.ensure_live() {
            return Err(error);
        }
        let generation = match nonzero_generation(request.media_generation) {
            Ok(generation) => generation,
            Err(error) => {
                return Err(error);
            },
        };
        let idle = match &self.lifecycle {
            DriverLifecycle::Live(DriverMediaPhase::Idle) => true,
            _ => false,
        };
        if !idle {
            return Err(MediaDriverError::new("a previous media generation still requires cleanup"));
        }
        self.lifecycle = DriverLifecycle::Live(DriverMediaPhase::StartingCapture(generation));
        Ok(generation)
    }

    /// Take what the capture owner prepared.
    pub fn finish_start_capture(
        &mut self,
        request: MediaStartRequest,
        outcome: PortOutcome<PreparedCaptureMedia>,
    ) -> (result: Result<(), MediaDriverError>)
        requires
            old(self)@.live(),
            old(self)@.phase() matches DriverMediaPhase::StartingCapture(generation)
                && generation@ == request.media_generation,
        ensures
            capture_started(old(self)@, request, outcome, final(self)@, result),
    {
        match cancellable("start capture pipeline", outcome) {
            Err(error) => Err(error),
            Ok(prepared) => {
                if let Err(error) = validate_prepared_capture(&prepared, request) {
                    return Err(error);
                }
                self.lifecycle = DriverLifecycle::Live(DriverMediaPhase::Prepared(prepared));
                Ok(())
            },
        }
    }

    /// Whether the prepared media needs an audio connection, if the requested
    /// generation is the one that is prepared.
    pub fn begin_start_media(&self, request: MediaStartRequest) -> (result: Result<
        (NonZeroU64, bool),
        MediaDriverError,
    >)
        ensures
            media_begins(self@, request, result),
    {
        if let Err(error) = self.ensure_live() {
            return Err(error);
        }
        let generation = match nonzero_generation(request.media_generation) {
            Ok(generation) => generation,
            Err(error) => {
                return Err(error);
            },
        };
        match &self.lifecycle {
            DriverLifecycle::Shutdown => Err(MediaDriverError::new("media driver is shut down")),
            DriverLifecycle::Live(media) => {
                let held = media.capture_generation();
                if !same_generation(held, generation) {
                    return Err(generation_mismatch("start backend media", held, generation));
                }
                match media {
                    DriverMediaPhase::Prepared(prepared) => Ok(
                        (generation, prepared.audio_target.is_some()),
                    ),
                    _ => Err(MediaDriverError::new("capture did not return media targets")),
                }
            },
        }
    }

    /// Hand the prepared media over to the backend, once the connections are
    /// there. From here on a failed or interrupted operation is ambiguous, and
    /// the backend must be stopped too.
    pub fn transfer_media(&mut self, outcome: PortOutcome<bool>) -> (result: Result<
        DeviceMediaSetup,
        MediaDriverError,
    >)
        requires
            old(self)@.live(),
            old(self)@.phase() is Prepared,
        ensures
            media_transferred(old(self)@, outcome, final(self)@, result),
    {
        let has_audio = match cancellable("mint backend PipeWire remotes", outcome) {
            Ok(has_audio) => has_audio,
            Err(error) => {
                return Err(error);
            },
        };
        let (generation, needs_audio) = match &self.lifecycle {
            DriverLifecycle::Live(DriverMediaPhase::Prepared(prepared)) => (
                prepared.media_generation,
                prepared.audio_target.is_some(),
            ),
            _ => {
                return Err(MediaDriverError::new("capture did not return media targets"));
            },
        };
        if has_audio != needs_audio {
            return Err(
                MediaDriverError::new("PipeWire remote layout differs from prepared media targets"),
            );
        }
        let mut lifecycle = DriverLifecycle::Live(DriverMediaPhase::BackendPending(generation));
        core::mem::swap(&mut self.lifecycle, &mut lifecycle);
        match lifecycle {
            DriverLifecycle::Live(DriverMediaPhase::Prepared(prepared)) => {
                let mut targets: Vec<DeviceMediaTarget> = Vec::new();
                targets.push(prepared.video_target);
                if let Some(audio) = prepared.audio_target {
                    targets.push(audio);
                    proof {
                        assert(targets@ =~= seq![prepared.video_target, audio]);
                    }
                } else {
                    proof {
                        assert(targets@ =~= seq![prepared.video_target]);
                    }
                }
                Ok(
                    DeviceMediaSetup {
                        media_generation: generation,
                        targets,
                        configuration: prepared.configuration,
                    },
                )
            },
            _ => Err(MediaDriverError::new("capture did not return media targets")),
        }
    }

    /// The generation to suspend, if it is the one that runs, and what the
    /// device is told of the reason.
    pub fn begin_suspend(&self, media_generation: u64, reason: MediaSuspendReason) -> (result:
        Result<(NonZeroU64, DeviceMediaSuspendReason), MediaDriverError>)
        ensures
            suspension_begins(self@, media_generation, reason, result),
    {
        if let Err(error) = self.ensure_live() {
            return Err(error);
        }
        let generation = match nonzero_generation(media_generation) {
            Ok(generation) => generation,
            Err(error) => {
                return Err(error);
            },
        };
        match &self.lifecycle {
            DriverLifecycle::Shutdown => Err(MediaDriverError::new("media driver is shut down")),
            DriverLifecycle::Live(media) => {
                let backend = media.backend_generation();
                let capture = media.capture_generation();
                if !same_generation(backend, generation) || !same_generation(capture, generation) {
                    let active = if backend.is_some() {
                        backend
                    } else {
                        capture
                    };
                    return Err(generation_mismatch("suspend media", active, generation));
                }
                Ok((generation, map_suspend_reason(reason)))
            },
        }
    }

    /// Record every cleanup duty before any owner is asked to stop. A stop
    /// that is cancelled leaves what remains for a later attempt. `None` when
    /// there is nothing to stop any more.
    pub fn begin_stop(&mut self, media_generation: u64) -> (result: Result<
        Option<NonZeroU64>,
        MediaDriverError,
    >)
        ensures
            stop_begins(old(self)@, media_generation, final(self)@, result),
    {
        let generation = match nonzero_generation(media_generation) {
            Ok(generation) => generation,
            Err(error) => {
                return Err(error);
            },
        };
        match &mut self.lifecycle {
            DriverLifecycle::Shutdown => Ok(None),
            DriverLifecycle::Live(media) => {
                media.begin_cleanup();
                Ok(Some(generation))
            },
        }
    }

    /// What a stop of `generation` has to do at the backend.
    pub fn backend_stop_duty(&self, generation: NonZeroU64) -> (duty: StopDuty)
        requires
            self@.lifecycle is Live,
        ensures
            match self@.phase().held_by_backend() {
                None => duty == StopDuty::Nothing,
                Some(active) => if active != generation {
                    duty matches StopDuty::Refused(text) && text@ == mismatch(
                        "stop backend media"@,
                        Some(active),
                        generation@,
                    )
                } else if !self@.device_present {
                    duty matches StopDuty::Refused(text) && text@
                        == "Device session is no longer available"@
                } else {
                    duty == StopDuty::Stop
                },
            },
    {
        match &self.lifecycle {
            DriverLifecycle::Shutdown => StopDuty::Nothing,
            DriverLifecycle::Live(media) => match media.backend_generation() {
                None => StopDuty::Nothing,
                Some(active) => if active != generation {
                    StopDuty::Refused(
                        generation_mismatch("stop backend media", Some(active), generation).0,
                    )
                } else if self.device_present {
                    StopDuty::Stop
                } else {
                    StopDuty::Refused("Device session is no longer available".to_owned())
                },
            },
        }
    }

    /// What a stop of `generation` has to do at the capture owner.
    pub fn capture_stop_duty(&self, generation: NonZeroU64) -> (duty: StopDuty)
        requires
            self@.lifecycle is Live,
        ensures
            match self@.phase().held_by_capture() {
                None => duty == StopDuty::Nothing,
                Some(active) => if active != generation {
                    duty matches StopDuty::Refused(text) && text@ == mismatch(
                        "stop capture pipeline"@,
                        Some(active),
                        generation@,
                    )
                } else {
                    duty == StopDuty::Stop
                },
            },
    {
        match &self.lifecycle {
            DriverLifecycle::Shutdown => StopDuty::Nothing,
            DriverLifecycle::Live(media) => match media.capture_generation() {
                None => StopDuty::Nothing,
                Some(active) => if active != generation {
                    StopDuty::Refused(
                        generation_mismatch("stop capture pipeline", Some(active), generation).0,
                    )
                } else {
                    StopDuty::Stop
                },
            },
        }
    }

    /// Take what came of stopping the backend; a failure is noted.
    pub fn finish_backend_stop(&mut self, outcome: PortOutcome<()>, failures: &mut Vec<String>)
        requires
            old(self)@.lifecycle is Live,
        ensures
            match outcome {
                PortOutcome::Done(_) => {
                    &&& final(self)@ == old(self)@.in_phase(old(self)@.phase().backend_cleaned())
                    &&& final(failures)@ == old(failures)@
                },
                _ => {
                    &&& final(self)@ == old(self)@
                    &&& texts_view(final(failures)@) == texts_view(old(failures)@).push(
                        outcome_error("stop backend media"@, outcome),
                    )
                },
            },
    {
        match cancellable("stop backend media", outcome) {
            Ok(()) => {
                if let DriverLifecycle::Live(media) = &mut self.lifecycle {
                    media.complete_backend_cleanup();
                }
            },
            Err(error) => {
                note(failures, error.0);
            },
        }
    }

    /// Take what came of stopping the capture owner; a failure is noted.
    pub fn finish_capture_stop(&mut self, outcome: PortOutcome<()>, failures: &mut Vec<String>)
        requires
            old(self)@.lifecycle is Live,
        ensures
            match outcome {
                PortOutcome::Done(_) => {
                    &&& final(self)@ == old(self)@.in_phase(old(self)@.phase().capture_cleaned())
                    &&& final(failures)@ == old(failures)@
                },
                _ => {
                    &&& final(self)@ == old(self)@
                    &&& texts_view(final(failures)@) == texts_view(old(failures)@).push(
                        outcome_error("stop capture pipeline"@, outcome),
                    )
                },
            },
    {
        match cancellable("stop capture pipeline", outcome) {
            Ok(()) => {
                if let DriverLifecycle::Live(media) = &mut self.lifecycle {
                    media.complete_capture_cleanup();
                }
            },
            Err(error) => {
                note(failures, error.0);
            },
        }
    }

    /// Stop a generation: the backend first, then the capture owner. Whatever
    /// comes of one, the other is still asked.
    pub fn stop(&mut self, media_generation: u64, reason: MediaStopReason) -> (action: StopAction)
        ensures
            stop_asked(old(self)@, media_generation, reason, final(self)@, action),
    {
        let failures: Vec<String> = Vec::new();
        proof {
            assert(texts_view(failures@) =~= Seq::empty());
        }
        let generation = match self.begin_stop(media_generation) {
            Err(error) => {
                return StopAction::Ended(Err(error));
            },
            Ok(None) => {
                return StopAction::Ended(combine_failures(failures));
            },
            Ok(Some(generation)) => generation,
        };
        let mut run = StopRun { generation, reason, failures };
        match self.backend_stop_duty(generation) {
            StopDuty::Stop => StopAction::StopBackend { run, reason: map_stop_reason(reason) },
            StopDuty::Nothing => self.stop_capture(run),
            StopDuty::Refused(text) => {
                note(&mut run.failures, text);
                proof {
                    assert(texts_view(run.failures@) =~= seq![text@]);
                }
                self.stop_capture(run)
            },
        }
    }

    /// Go on with a stop once the backend has answered.
    pub fn backend_stopped(&mut self, run: StopRun, outcome: PortOutcome<()>) -> (action: StopAction)
        requires
            old(self)@.lifecycle is Live,
        ensures
            backend_stop_ended(old(self)@, run, outcome, final(self)@, action),
    {
        let mut run = run;
        self.finish_backend_stop(outcome, &mut run.failures);
        self.stop_capture(run)
    }

    /// End a stop once the capture owner has answered.
    pub fn capture_stopped(&mut self, run: StopRun, outcome: PortOutcome<()>) -> (result: Result<
        (),
        MediaDriverError,
    >)
        requires
            old(self)@.lifecycle is Live,
        ensures
            capture_stop_ended(old(self)@, run, outcome, final(self)@, result),
    {
        let mut run = run;
        self.finish_capture_stop(outcome, &mut run.failures);
        combine_failures(run.failures)
    }

    fn stop_capture(&self, run: StopRun) -> (action: StopAction)
        requires
            self@.lifecycle is Live,
        ensures
            stops_capture(self@, run.generation, run.reason, texts_view(run.failures@), action),
    {
        let mut run = run;
        match self.capture_stop_duty(run.generation) {
            StopDuty::Stop => StopAction::StopCapture(run),
            StopDuty::Nothing => StopAction::Ended(combine_failures(run.failures)),
            StopDuty::Refused(text) => {
                note(&mut run.failures, text);
                StopAction::Ended(combine_failures(run.failures))
            },
        }
    }

    /// Begin the final shutdown: `None` when it is already done, else whether
    /// there is a device session to stop, and the reason to give it.
    pub fn begin_shutdown(&mut self, reason: MediaStopReason) -> (order: Option<
        (bool, DeviceSessionStopReason),
    >)
        ensures
            shutdown_begins(old(self)@, reason, final(self)@, order),
    {
        if matches!(self.lifecycle, DriverLifecycle::Shutdown) {
            return None;
        }
        let final_reason = match reason {
            MediaStopReason::DisplayRemoved => DeviceSessionStopReason::DisplayRemoved,
            _ => DeviceSessionStopReason::DaemonShutdown,
        };
        let device_present = self.device_present;
        self.device_present = false;
        Some((device_present, final_reason))
    }

    /// End the final shutdown with what came of the two independent cleanups.
    pub fn finish_shutdown(&mut self, device: Result<(), String>, capture: PortOutcome<()>) -> (
    result: Result<(), MediaDriverError>)
        ensures
            shutdown_ended(old(self)@, device, capture, final(self)@, result),
    {
        let mut failures: Vec<String> = Vec::new();
        proof {
            assert(texts_view(failures@) =~= Seq::empty());
        }
        if let Err(error) = device {
            note(&mut failures, concat("final Device-session stop failed: ", error.as_str()));
            proof {
                assert(texts_view(failures@) =~= seq![
                    "final Device-session stop failed: "@ + error@,
                ]);
            }
        }
        if let Err(error) = cancellable("shut down capture pipeline", capture) {
            note(&mut failures, error.0);
        }
        self.lifecycle = DriverLifecycle::Shutdown;
        combine_failures(failures)
    }
}

/// Add a text to a list.
pub fn note(failures: &mut Vec<String>, text: String)
    ensures
        texts_view(final(failures)@) == texts_view(old(failures)@).push(text@),
{
    failures.push(text);
    proof {
        assert(texts_view(failures@) =~= texts_view(old(failures)@).push(text@));
    }
}

fn same_generation(held: Option<NonZeroU64>, generation: NonZeroU64) -> (same: bool)
    ensures
        same == (held == Some(generation)),
        same == (held matches Some(active) && active@ == generation@),
{
    match held {
        Some(active) => active == generation,
        None => false,
    }
}

pub fn validate_prepared_capture(prepared: &PreparedCaptureMedia, request: MediaStartRequest) -> (
result: Result<(), MediaDriverError>)
    ensures
        match prepared_fault(*prepared, request) {
            None => result is Ok,
            Some(fault) => result is Err && result->Err_0.0@ == fault,
        },
{
    let generation = match nonzero_generation(request.media_generation) {
        Ok(generation) => generation,
        Err(error) => {
            return Err(error);
        },
    };
    let stale_audio = match &prepared.audio_target {
        Some(target) => target.media_generation != generation,
        None => false,
    };
    if prepared.media_generation != generation || prepared.video_target.media_generation
        != generation || stale_audio {
        return Err(MediaDriverError::new("capture pipeline returned a stale media generation"));
    }
    let misplaced_audio = match &prepared.audio_target {
        Some(target) => target.kind != DeviceMediaKind::Audio,
        None => false,
    };
    if prepared.video_target.kind != DeviceMediaKind::Video || misplaced_audio {
        return Err(MediaDriverError::new("capture pipeline returned an invalid target ordering"));
    }
    if prepared.audio_target.is_some() != prepared.configuration.audio_profile_id.is_some() {
        return Err(MediaDriverError::new("capture targets and negotiated audio profile disagree"));
    }
    if prepared.configuration.mode != request.route.mode {
        return Err(MediaDriverError::new("capture media mode differs from the active kernel route"));
    }
    Ok(())
}

pub fn nonzero_generation(media_generation: u64) -> (result: Result<NonZeroU64, MediaDriverError>)
    ensures
        result is Err <==> media_generation == 0,
        result matches Ok(generation) ==> generation@ == media_generation,
        result matches Err(error) ==> error.0@ == "media generation must be nonzero"@,
{
    match NonZeroU64::new(media_generation) {
        Some(generation) => Ok(generation),
        None => Err(MediaDriverError::new("media generation must be nonzero")),
    }
}

pub fn generation_mismatch(
    operation: &'static str,
    active: Option<NonZeroU64>,
    requested: NonZeroU64,
) -> (error: MediaDriverError)
    ensures
        error.0@ == mismatch(operation@, active, requested@),
{
    let mut text = concat(operation, " requested generation ");
    push_decimal(&mut text, requested.get());
    text.append("; active generation is ");
    let active = match active {
        Some(generation) => {
            let mut number = "Some(".to_owned();
            push_decimal(&mut number, generation.get());
            number.append(")");
            number
        },
        None => "None".to_owned(),
    };
    text.append(active.as_str());
    MediaDriverError(text)
}

/// What a device is told of the reason of a suspension.
pub open spec fn device_suspend_reason(reason: MediaSuspendReason) -> DeviceMediaSuspendReason {
    match reason {
        MediaSuspendReason::GrantUnavailable => DeviceMediaSuspendReason::SessionInactive,
        MediaSuspendReason::DeviceUnavailable => DeviceMediaSuspendReason::DeviceUnavailable,
        MediaSuspendReason::SessionInactive => DeviceMediaSuspendReason::SessionInactive,
    }
}

pub fn map_suspend_reason(reason: MediaSuspendReason) -> (mapped: DeviceMediaSuspendReason)
    ensures
        mapped == device_suspend_reason(reason),
{
    match reason {
        MediaSuspendReason::GrantUnavailable => DeviceMediaSuspendReason::SessionInactive,
        MediaSuspendReason::DeviceUnavailable => DeviceMediaSuspendReason::DeviceUnavailable,
        MediaSuspendReason::SessionInactive => DeviceMediaSuspendReason::SessionInactive,
    }
}

/// What a device is told of the reason of a stop.
pub open spec fn device_stop_reason(reason: MediaStopReason) -> DeviceMediaStopReason {
    match reason {
        MediaStopReason::OutputDisabled => DeviceMediaStopReason::OutputDisabled,
        MediaStopReason::ModeChanged => DeviceMediaStopReason::ModeChanged,
        MediaStopReason::DisplayRemoved => DeviceMediaStopReason::DisplayRemoved,
        MediaStopReason::BackendShutdown => DeviceMediaStopReason::BackendShutdown,
        MediaStopReason::TransportFailure => DeviceMediaStopReason::TransportFailure,
    }
}

pub fn map_stop_reason(reason: MediaStopReason) -> (mapped: DeviceMediaStopReason)
    ensures
        mapped == device_stop_reason(reason),
{
    match reason {
        MediaStopReason::OutputDisabled => DeviceMediaStopReason::OutputDisabled,
        MediaStopReason::ModeChanged => DeviceMediaStopReason::ModeChanged,
        MediaStopReason::DisplayRemoved => DeviceMediaStopReason::DisplayRemoved,
        MediaStopReason::BackendShutdown => DeviceMediaStopReason::BackendShutdown,
        MediaStopReason::TransportFailure => DeviceMediaStopReason::TransportFailure,
    }
}

pub fn combine_failures(failures: Vec<String>) -> (result: Result<(), MediaDriverError>)
    ensures
        result is Ok <==> failures@.len() == 0,
        result matches Err(error) ==> error.0@ == joined(texts_view(failures@), "; "@),
{
    if failures.len() == 0 {
        Ok(())
    } else {
        Err(MediaDriverError(join(&failures, "; ")))
    }
}

/// Recording cleanup duties loses none of them and adds none.
pub proof fn cleanup_keeps_every_duty(phase: DriverMediaPhase)
    ensures
        phase.cleaning().held_by_capture() == phase.held_by_capture(),
        phase.cleaning().held_by_backend() == phase.held_by_backend(),
        phase.cleaning().cleaning() == phase.cleaning(),
{
}

/// One owner's cleanup ends its own duty and leaves the other's.
pub proof fn cleanups_are_independent(phase: DriverMediaPhase)
    ensures
        ({
            let cleaning = phase.cleaning();
            &&& cleaning.capture_cleaned().held_by_capture() is None
            &&& cleaning.backend_cleaned().held_by_backend() is None
            &&& cleaning.held_by_backend() is Some ==> cleaning.capture_cleaned().held_by_backend()
                == cleaning.held_by_backend()
            &&& cleaning.held_by_capture() is Some ==> cleaning.backend_cleaned().held_by_capture()
                == cleaning.held_by_capture()
        }),
{
}

/// Once both owners with a duty have cleaned up, the driver is idle, and a new
/// generation can start; in whatever order they came.
pub proof fn complete_cleanup_is_idle(phase: DriverMediaPhase)
    ensures
        ({
            let cleaning = phase.cleaning();
            let backend_first = if cleaning.held_by_backend() is Some {
                cleaning.backend_cleaned()
            } else {
                cleaning
            };
            let done = if backend_first.held_by_capture() is Some {
                backend_first.capture_cleaned()
            } else {
                backend_first
            };
            done == DriverMediaPhase::Idle
        }),
{
}

/// A stop asks the capture owner for what it holds, whatever has failed at the
/// backend.
pub proof fn failed_backends_do_not_keep_capture(
    driver: DriverView,
    generation: NonZeroU64,
    reason: MediaStopReason,
    failures: Seq<Seq<char>>,
    action: StopAction,
)
    requires
        stops_capture(driver, generation, reason, failures, action),
        driver.phase().held_by_capture() == Some(generation),
    ensures
        action is StopCapture,
{
}

/// The backend never holds a generation that the capture owner did not hold
/// until cleanup began, and the two never hold different ones.
pub proof fn owners_agree_on_the_generation(phase: DriverMediaPhase)
    ensures
        phase.held_by_backend() is Some && phase.held_by_capture() is Some
            ==> phase.held_by_backend() == phase.held_by_capture(),
        phase.held_by_backend() is None && phase.held_by_capture() is None <==> phase
            == DriverMediaPhase::Idle,
{
}

/// A generation begins only on a live driver that holds nothing, and is then the one
/// that capture holds. What is refused changes nothing.
pub proof fn generations_begin_one_at_a_time(
    before: DriverView,
    request: MediaStartRequest,
    after: DriverView,
    result: Result<NonZeroU64, MediaDriverError>,
)
    requires
        capture_begins(before, request, after, result),
    ensures
        result is Ok <==> before.device_present && before.lifecycle is Live
            && before.lifecycle->Live_0.held_by_capture() is None
            && before.lifecycle->Live_0.held_by_backend() is None && request.media_generation > 0,
        result is Ok ==> result->Ok_0@ == request.media_generation,
        result is Ok ==> after.lifecycle is Live && after.lifecycle->Live_0.held_by_capture()
            == Some(result->Ok_0) && after.lifecycle->Live_0.held_by_backend() is None,
        after.device_present == before.device_present,
        result is Err ==> after == before,
{
}

/// A capture is accepted only if all of it belongs to the generation, each target is
/// of its kind, sound is there exactly where a profile for it was agreed on, and the
/// picture has the mode of the route.
pub proof fn accepted_captures_fit_their_request(
    prepared: PreparedCaptureMedia,
    request: MediaStartRequest,
)
    ensures
        prepared_fault(prepared, request) is None <==> {
            &&& request.media_generation > 0
            &&& prepared.media_generation@ == request.media_generation
            &&& prepared.video_target.media_generation@ == request.media_generation
            &&& prepared.video_target.kind is Video
            &&& prepared.configuration.mode.width == request.route.mode.width
            &&& prepared.configuration.mode.height == request.route.mode.height
            &&& prepared.configuration.mode.refresh_millihz == request.route.mode.refresh_millihz
            &&& prepared.configuration.mode.flags == request.route.mode.flags
            &&& prepared.audio_target is Some <==> prepared.configuration.audio_profile_id is Some
            &&& prepared.audio_target is Some ==> prepared.audio_target->0.media_generation@
                == request.media_generation && prepared.audio_target->0.kind is Audio
        },
{
}

/// Only a capture that fits is kept; after any failure the generation is still the
/// capture's to clean up.
pub proof fn failed_captures_are_still_held(
    before: DriverView,
    request: MediaStartRequest,
    outcome: PortOutcome<PreparedCaptureMedia>,
    after: DriverView,
    result: Result<(), MediaDriverError>,
)
    requires
        capture_started(before, request, outcome, after, result),
        before.lifecycle is Live,
        before.phase().held_by_capture() is Some,
        before.phase().held_by_capture()->0@ == request.media_generation,
    ensures
        result is Ok <==> outcome is Done && prepared_fault(outcome->Done_0, request) is None,
        result is Ok ==> after.lifecycle == DriverLifecycle::Live(
            DriverMediaPhase::Prepared(outcome->Done_0),
        ),
        result is Err ==> after == before,
        after.phase().held_by_capture() == before.phase().held_by_capture(),
        after.device_present == before.device_present,
{
    if result is Ok {
        let prepared = outcome->Done_0;
        assert(prepared.media_generation@ == before.phase().held_by_capture()->0@);
    }
}

/// The backend gets exactly what was prepared, the picture before the sound, and
/// holds the generation from then on; a failed hand-over leaves it with the capture.
pub proof fn backends_get_what_was_prepared(
    before: DriverView,
    outcome: PortOutcome<bool>,
    after: DriverView,
    result: Result<DeviceMediaSetup, MediaDriverError>,
)
    requires
        before.lifecycle is Live,
        before.phase() is Prepared,
        media_transferred(before, outcome, after, result),
    ensures
        ({
            let prepared = before.phase()->Prepared_0;
            &&& result is Ok <==> outcome is Done && (outcome->Done_0
                <==> prepared.audio_target is Some)
            &&& result is Err ==> after == before && after.phase().held_by_backend() is None
            &&& result is Ok ==> {
                let setup = result->Ok_0;
                &&& setup.media_generation == prepared.media_generation
                &&& setup.configuration == prepared.configuration
                &&& setup.targets@.len() == (if outcome->Done_0 {
                    2int
                } else {
                    1int
                })
                &&& setup.targets@[0] == prepared.video_target
                &&& outcome->Done_0 ==> setup.targets@[1] == prepared.audio_target->0
                &&& after.phase().held_by_backend() == Some(prepared.media_generation)
                &&& after.phase().held_by_capture() == Some(prepared.media_generation)
                &&& after.device_present == before.device_present
            }
        }),
{
}

/// Media start, and are suspended, only in the generation that is there; the backend
/// hears why they are suspended.
pub proof fn orders_are_for_the_generation_that_is_there(
    driver: DriverView,
    request: MediaStartRequest,
    reason: MediaSuspendReason,
    start: Result<(NonZeroU64, bool), MediaDriverError>,
    suspension: Result<(NonZeroU64, DeviceMediaSuspendReason), MediaDriverError>,
)
    requires
        media_begins(driver, request, start),
        suspension_begins(driver, request.media_generation, reason, suspension),
    ensures
        start is Ok ==> driver.device_present && driver.lifecycle is Live && driver.phase()
            is Prepared,
        start is Ok ==> driver.phase().held_by_capture() is Some
            && driver.phase().held_by_capture()->0@ == request.media_generation,
        start is Ok ==> {
            let (generation, audio) = start->Ok_0;
            generation@ == request.media_generation && (audio
                <==> driver.phase()->Prepared_0.audio_target is Some)
        },
        driver.live() && request.media_generation > 0 && driver.phase() is Prepared
            && driver.phase()->Prepared_0.media_generation@ == request.media_generation
            ==> start is Ok,
        suspension is Ok <==> driver.live() && request.media_generation > 0
            && driver.phase().held_by_backend() is Some && driver.phase().held_by_backend()->0@
            == request.media_generation && driver.phase().held_by_capture()
            == driver.phase().held_by_backend(),
        suspension is Ok ==> {
            let (generation, told) = suspension->Ok_0;
            &&& generation@ == request.media_generation
            &&& told is DeviceUnavailable <==> reason is DeviceUnavailable
            &&& told is SessionInactive <==> reason is GrantUnavailable || reason
                is SessionInactive
        },
        !(start is Ok && suspension is Ok),
{
    if driver.phase().held_by_backend() is Some && driver.phase().held_by_capture() is Some {
        owners_agree_on_the_generation(driver.phase());
    }
}

/// A backend is told why its media stop in the words of the request.
pub proof fn stops_are_told_as_asked(reason: MediaStopReason)
    ensures
        device_stop_reason(reason) is OutputDisabled <==> reason is OutputDisabled,
        device_stop_reason(reason) is ModeChanged <==> reason is ModeChanged,
        device_stop_reason(reason) is DisplayRemoved <==> reason is DisplayRemoved,
        device_stop_reason(reason) is BackendShutdown <==> reason is BackendShutdown,
        device_stop_reason(reason) is TransportFailure <==> reason is TransportFailure,
{
}

/// A stop first asks the backend, if that holds the generation and its device is
/// there; else the capture, if that holds it; and ends well only where neither holds
/// anything.
pub proof fn stops_ask_whoever_holds_the_generation(
    before: DriverView,
    media_generation: u64,
    reason: MediaStopReason,
    after: DriverView,
    action: StopAction,
)
    requires
        stop_asked(before, media_generation, reason, after, action),
    ensures
        media_generation == 0 || before.lifecycle is Shutdown ==> after == before && action
            is Ended,
        media_generation > 0 && before.lifecycle is Live ==> {
            let backend = before.phase().held_by_backend();
            let capture = before.phase().held_by_capture();
            let asked_backend = backend is Some && backend->0@ == media_generation
                && before.device_present;
            &&& after.device_present == before.device_present
            &&& after.phase().held_by_backend() == backend
            &&& after.phase().held_by_capture() == capture
            &&& action is StopBackend <==> asked_backend
            &&& action is StopCapture <==> !asked_backend && capture is Some && capture->0@
                == media_generation
            &&& action matches StopAction::StopBackend { run, reason: told } ==> run.generation@
                == media_generation && run.reason == reason && run.failures@.len() == 0 && told
                == device_stop_reason(reason)
            &&& action matches StopAction::StopCapture(run) ==> run.generation@
                == media_generation && run.reason == reason && (run.failures@.len() == 0
                <==> backend is None)
            &&& action matches StopAction::Ended(result) ==> (result is Ok <==> backend is None
                && capture is None)
        },
{
    if media_generation > 0 && before.lifecycle is Live {
        cleanup_keeps_every_duty(before.phase());
        let generation = choose|generation: NonZeroU64|
            {
                &&& #[trigger] generation@ == media_generation
                &&& match after.phase().held_by_backend() {
                    None => stops_capture(after, generation, reason, Seq::empty(), action),
                    Some(active) => if active != generation {
                        stops_capture(
                            after,
                            generation,
                            reason,
                            seq![mismatch("stop backend media"@, Some(active), media_generation)],
                            action,
                        )
                    } else if !after.device_present {
                        stops_capture(
                            after,
                            generation,
                            reason,
                            seq!["Device session is no longer available"@],
                            action,
                        )
                    } else {
                        &&& action matches StopAction::StopBackend { run, reason: told }
                        &&& run.generation == generation
                        &&& run.reason == reason
                        &&& run.failures@.len() == 0
                        &&& told == device_stop_reason(reason)
                    },
                }
            };
        match action {
            StopAction::StopCapture(run) => {
                assert(texts_view(run.failures@).len() == run.failures@.len());
            },
            _ => {},
        }
    }
}

/// After the backend, the capture is asked for what it holds, whatever came of the
/// backend; a failure there is remembered, and nothing else is.
pub proof fn captures_are_stopped_after_the_backend(
    before: DriverView,
    run: StopRun,
    outcome: PortOutcome<()>,
    after: DriverView,
    action: StopAction,
)
    requires
        before.lifecycle is Live,
        before.phase() is Cleanup,
        backend_stop_ended(before, run, outcome, after, action),
    ensures
        after.lifecycle is Live,
        after.device_present == before.device_present,
        after.phase().held_by_capture() == before.phase().held_by_capture(),
        outcome is Done ==> after.phase().held_by_backend() is None,
        !(outcome is Done) ==> after == before,
        !(action is StopBackend),
        action is StopCapture <==> before.phase().held_by_capture() == Some(run.generation),
        action matches StopAction::StopCapture(next) ==> {
            &&& next.generation == run.generation
            &&& next.reason == run.reason
            &&& next.failures@.len() == run.failures@.len() + (if outcome is Done {
                0int
            } else {
                1int
            })
            &&& forall|i: int|
                0 <= i < run.failures@.len() ==> (#[trigger] next.failures@[i])@
                    == run.failures@[i]@
        },
        action matches StopAction::Ended(result) ==> (result is Ok <==> outcome is Done
            && run.failures@.len() == 0 && before.phase().held_by_capture() is None),
{
    match action {
        StopAction::StopCapture(next) => {
            let failures = if outcome is Done {
                texts_view(run.failures@)
            } else {
                texts_view(run.failures@).push(outcome_error("stop backend media"@, outcome))
            };
            assert(texts_view(next.failures@) == failures);
            assert(texts_view(next.failures@).len() == next.failures@.len());
            assert forall|i: int| 0 <= i < run.failures@.len() implies (
            #[trigger] next.failures@[i])@ == run.failures@[i]@ by {
                assert(texts_view(next.failures@)[i] == failures[i]);
            }
        },
        _ => {},
    }
}

/// A stop succeeds only if the backend and the capture both did; the capture holds
/// nothing once it has stopped.
pub proof fn stops_succeed_only_as_a_whole(
    before: DriverView,
    run: StopRun,
    outcome: PortOutcome<()>,
    after: DriverView,
    result: Result<(), MediaDriverError>,
)
    requires
        before.lifecycle is Live,
        before.phase() is Cleanup,
        capture_stop_ended(before, run, outcome, after, result),
    ensures
        result is Ok <==> outcome is Done && run.failures@.len() == 0,
        outcome is Done ==> after.lifecycle is Live && after.phase().held_by_capture() is None,
        after.phase().held_by_backend() == before.phase().held_by_backend(),
        after.device_present == before.device_present,
        !(outcome is Done) ==> after == before,
{
    assert(texts_view(run.failures@).len() == run.failures@.len());
}

/// A driver is shut down once, gives its device up at that, and is then down
/// whatever failed. Every failure is told.
pub proof fn shutdowns_are_final(
    before: DriverView,
    reason: MediaStopReason,
    between: DriverView,
    order: Option<(bool, DeviceSessionStopReason)>,
    device: Result<(), String>,
    capture: PortOutcome<()>,
    after: DriverView,
    result: Result<(), MediaDriverError>,
)
    requires
        shutdown_begins(before, reason, between, order),
        shutdown_ended(between, device, capture, after, result),
    ensures
        order is None <==> before.lifecycle is Shutdown,
        order is None ==> between == before,
        order is Some ==> {
            let (present, told) = order->0;
            &&& present == before.device_present
            &&& told is DisplayRemoved <==> reason is DisplayRemoved
            &&& !between.device_present
            &&& between.lifecycle == before.lifecycle
        },
        after.lifecycle is Shutdown,
        after.device_present == between.device_present,
        !after.live(),
        result is Ok <==> device is Ok && capture is Done,
        device is Err && capture is Done ==> result->Err_0.0@.skip(
            result->Err_0.0@.len() - device->Err_0@.len(),
        ) == device->Err_0@,
        device is Ok && capture is Failed ==> result->Err_0.0@.skip(
            result->Err_0.0@.len() - capture->Failed_0@.len(),
        ) == capture->Failed_0@,
{
    if device is Err && capture is Done {
        let text = result->Err_0.0@;
        assert(text.skip(text.len() - device->Err_0@.len()) =~= device->Err_0@);
    }
    if device is Ok && capture is Failed {
        let text = result->Err_0.0@;
        assert(text.skip(text.len() - capture->Failed_0@.len()) =~= capture->Failed_0@);
    }
}

/// The steps of a start and of a suspension follow one another: a backend is
/// configured, the capture is activated, the backend starts; it is suspended before
/// the capture.
pub proof fn backends_start_in_order()
    ensures
        BackendStartStep::Configure.following() == Some(BackendStartStep::Activate),
        BackendStartStep::Configure.following()->0.following() == Some(BackendStartStep::Start),
        BackendStartStep::Start.following() is None,
{
}

/// A failure names the operation and its reason; one that was given up is told from
/// one that failed.
pub proof fn failures_name_their_operation(operation: Seq<char>, reason: String)
    ensures
        operation.is_prefix_of(outcome_error(operation, PortOutcome::<()>::Failed(reason))),
        operation.is_prefix_of(outcome_error(operation, PortOutcome::<()>::Cancelled)),
        ({
            let text = outcome_error(operation, PortOutcome::<()>::Failed(reason));
            text.skip(text.len() - reason@.len()) == reason@
        }),
        outcome_error(operation, PortOutcome::<()>::Cancelled).len() == operation.len() + 14,
{
    reveal_strlit(" was cancelled");
    let text = outcome_error(operation, PortOutcome::<()>::Failed(reason));
    assert(text.skip(text.len() - reason@.len()) =~= reason@);
}

/// Nobody holds a generation that has been cleaned up, and each owner's duty is told
/// by its own cleanup.
pub proof fn remaining_cleanups_tell_their_owners(
    remaining: CleanupRemaining,
    generation: NonZeroU64,
)
    ensures
        remaining is Both <==> remaining.needs_capture() && remaining.needs_backend(),
        remaining is Capture ==> remaining.needs_capture() && !remaining.needs_backend(),
        remaining is Backend ==> remaining.needs_backend() && !remaining.needs_capture(),
        DriverMediaPhase::StartingCapture(generation).held_by_capture() == Some(generation),
        DriverMediaPhase::StartingCapture(generation).held_by_backend() is None,
        DriverMediaPhase::BackendPending(generation).held_by_capture() == Some(generation),
        DriverMediaPhase::BackendPending(generation).held_by_backend() == Some(generation),
        DriverMediaPhase::Idle.held_by_capture() is None,
        DriverMediaPhase::Idle.held_by_backend() is None,
        DriverMediaPhase::Idle.cleaning() is Idle,
{
}

/// A stop names its generation. On a live driver cleanup begins, and everyone keeps what they
/// have to clean up; on one that is down there is nothing to do.
pub proof fn stops_begin_the_cleanup(
    before: DriverView,
    media_generation: u64,
    after: DriverView,
    result: Result<Option<NonZeroU64>, MediaDriverError>,
)
    requires
        stop_begins(before, media_generation, after, result),
    ensures
        result is Err <==> media_generation == 0,
        result is Err ==> after == before,
        result is Ok && before.lifecycle is Shutdown ==> result->Ok_0 is None && after == before,
        result is Ok && before.lifecycle is Live ==> {
            &&& result->Ok_0 is Some && result->Ok_0->0@ == media_generation
            &&& after.device_present == before.device_present
            &&& after.lifecycle is Live
            &&& after.phase().held_by_capture() == before.phase().held_by_capture()
            &&& after.phase().held_by_backend() == before.phase().held_by_backend()
            &&& after.phase() is Idle || after.phase() is Cleanup
        },
{
    if before.lifecycle is Live {
        cleanup_keeps_every_duty(before.phase());
    }
}

/// The name of a step says what is done in it.
pub proof fn steps_are_named_by_their_work(value: BackendStartStep)
    ensures
        value is Configure ==> "configure backend media"@.is_prefix_of(value.operation()),
        value is Activate ==> "activate capture pipeline"@.is_prefix_of(value.operation()),
        value is Start ==> "start backend media"@.is_prefix_of(value.operation()),
{
    let text = value.operation();
    if value is Configure {
        assert("configure backend media"@ =~= text.subrange(
            0,
            "configure backend media"@.len() as int,
        ));
    }
    if value is Activate {
        assert("activate capture pipeline"@ =~= text.subrange(
            0,
            "activate capture pipeline"@.len() as int,
        ));
    }
    if value is Start {
        assert("start backend media"@ =~= text.subrange(0, "start backend media"@.len() as int));
    }
}

/// A capture that does not fit is refused for the first thing that is wrong with it.
pub proof fn refused_captures_say_what_is_wrong(
    prepared: PreparedCaptureMedia,
    request: MediaStartRequest,
)
    ensures
        ({
            let fault = prepared_fault(prepared, request);
            let stale = prepared.media_generation@ != request.media_generation
                || prepared.video_target.media_generation@ != request.media_generation || (
            prepared.audio_target is Some && prepared.audio_target->0.media_generation@
                != request.media_generation);
            let misplaced = !(prepared.video_target.kind is Video) || (prepared.audio_target is Some
                && !(prepared.audio_target->0.kind is Audio));
            let silent = prepared.audio_target is Some
                <==> prepared.configuration.audio_profile_id is None;
            &&& request.media_generation == 0 ==> fault == Some("media generation must be nonzero"@)
            &&& request.media_generation > 0 && stale ==> fault == Some(
                "capture pipeline returned a stale media generation"@,
            )
            &&& request.media_generation > 0 && !stale && misplaced ==> fault == Some(
                "capture pipeline returned an invalid target ordering"@,
            )
            &&& request.media_generation > 0 && !stale && !misplaced && silent ==> fault == Some(
                "capture targets and negotiated audio profile disagree"@,
            )
            &&& request.media_generation > 0 && !stale && !misplaced && !silent
                && prepared.configuration.mode != request.route.mode ==> fault == Some(
                "capture media mode differs from the active kernel route"@,
            )
        }),
{
}

/// A refused order says why: the driver is down, the generation has no number, something is
/// still to be cleaned up, or another generation is there.
pub proof fn refused_orders_say_why(
    before: DriverView,
    request: MediaStartRequest,
    after: DriverView,
    capture: Result<NonZeroU64, MediaDriverError>,
    start: Result<(NonZeroU64, bool), MediaDriverError>,
    reason: MediaSuspendReason,
    suspension: Result<(NonZeroU64, DeviceMediaSuspendReason), MediaDriverError>,
)
    requires
        capture_begins(before, request, after, capture),
        media_begins(before, request, start),
        suspension_begins(before, request.media_generation, reason, suspension),
    ensures
        !before.live() ==> capture->Err_0.0@ == "media driver is shut down"@ && start->Err_0.0@
            == "media driver is shut down"@ && suspension->Err_0.0@ == "media driver is shut down"@,
        before.live() && request.media_generation == 0 ==> capture->Err_0.0@
            == "media generation must be nonzero"@ && start->Err_0.0@
            == "media generation must be nonzero"@ && suspension->Err_0.0@
            == "media generation must be nonzero"@,
        before.live() && request.media_generation > 0 && !(before.phase() is Idle)
            ==> capture->Err_0.0@ == "a previous media generation still requires cleanup"@,
        before.live() && request.media_generation > 0 && before.phase() is Idle ==> {
            &&& start->Err_0.0@ == mismatch("start backend media"@, None, request.media_generation)
            &&& suspension->Err_0.0@ == mismatch("suspend media"@, None, request.media_generation)
        },
{
}

/// The text about another generation names the operation, the generation that was asked for,
/// and the one that is there.
pub proof fn mismatches_name_both_generations(
    operation: Seq<char>,
    active: Option<NonZeroU64>,
    requested: u64,
)
    ensures
        ({
            let text = mismatch(operation, active, requested);
            let number = decimal(requested as nat);
            let there = optional_generation(active);
            let at = operation.len() as int + 22;
            &&& operation.is_prefix_of(text)
            &&& text.subrange(at, at + number.len() as int) == number
            &&& text.skip(text.len() - there.len()) == there
        }),
        active matches Some(generation) ==> optional_generation(active).subrange(
            5,
            5 + decimal(generation@ as nat).len() as int,
        ) == decimal(generation@ as nat),
        active is None ==> optional_generation(active) == "None"@,
{
    reveal_strlit(" requested generation ");
    reveal_strlit("Some(");
    reveal_strlit(")");
    let text = mismatch(operation, active, requested);
    let number = decimal(requested as nat);
    let there = optional_generation(active);
    let at = operation.len() as int + 22;
    assert(operation =~= text.subrange(0, operation.len() as int));
    assert(text.subrange(at, at + number.len() as int) =~= number);
    assert(text.skip(text.len() - there.len()) =~= there);
    if active is Some {
        let generation = decimal(active->0@ as nat);
        assert(there.subrange(5, 5 + generation.len() as int) =~= generation);
    }
}

} // verus!
