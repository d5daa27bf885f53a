//! Observation and teardown of one authorized kernel display.

use crate::display_state::{ActiveRoute, DisplayGrantState, DisplayTopology, RouteTarget, RoutedMode};
use crate::kernel_display_port::{
    kernel_error, KernelDisplayError, KernelDisplayEvent, KernelDisplayObservation,
    KernelErrorView,
};
use crate::kernel_session::KernelSessionError;
use crate::nonzero::NonZeroU32;
use crate::os_error::{errno_codes, errno_meaning, meaning_of, ErrnoCodes, ErrnoMeaning, OsError};
use crate::text::{concat, decimal, push_decimal};
use vstd::prelude::*;
use vstd::string::*;

verus! {

/// How often a display is looked at, in nanoseconds.
pub const DEFAULT_TOPOLOGY_POLL_INTERVAL_NS: u64 = 16_000_000;

/// A mode that a display advertises.
#[derive(Debug, Clone, Copy, PartialEq, Eq, Structural)]
pub struct EdidMode {
    pub width: u32,
    pub height: u32,
    pub refresh_millihz: u32,
}

/// What a display is observed with.
#[derive(Debug)]
pub struct KernelDisplayConfig {
    pub crtc_id: NonZeroU32,
    pub modes: Vec<EdidMode>,
    pub poll_interval_ns: u64,
}

/// Why a monitor could not be attached.
#[derive(Debug, PartialEq, Eq)]
pub enum AttachError {
    Cancelled,
    Configuration(KernelDisplayError),
    Rejected(OsError),
    Worker(String),
}

impl AttachError {
    /// The error as one line.
    pub open spec fn text(self) -> Seq<char> {
        match self {
            AttachError::Cancelled => "monitor attachment was cancelled"@,
            AttachError::Configuration(error) => "prepare display observation: "@ + error@.text(),
            AttachError::Rejected(error) => "attach monitor: "@ + error.text@,
            AttachError::Worker(error) => "monitor attachment worker failed: "@ + error@,
        }
    }

    pub fn to_text(&self) -> (text: String)
        ensures
            text@ == self.text(),
    {
        match self {
            AttachError::Cancelled => "monitor attachment was cancelled".to_owned(),
            AttachError::Configuration(error) =>
                concat("prepare display observation: ", error.to_text().as_str()),
            AttachError::Rejected(error) => concat("attach monitor: ", error.text.as_str()),
            AttachError::Worker(error) =>
                concat("monitor attachment worker failed: ", error.as_str()),
        }
    }
}

/// Fail where there is nothing to observe, or no time to.
pub fn require_observable(modes: usize, poll_interval_ns: u64, operation: &'static str) -> (result:
    Result<(), KernelDisplayError>)
    ensures
        result is Ok <==> modes > 0 && poll_interval_ns > 0,
        result matches Err(error) ==> error@ == kernel_error(
            operation@,
            "advertised modes and a nonzero poll interval are required"@,
        ),
{
    if modes == 0 || poll_interval_ns == 0 {
        Err(
            KernelDisplayError::new(
                operation,
                "advertised modes and a nonzero poll interval are required",
            ),
        )
    } else {
        Ok(())
    }
}

/// What is seen of a display.
#[derive(Debug, Clone, Copy, PartialEq, Eq, Structural)]
pub enum Observation {
    State(KernelDisplayObservation),
    Revoked,
}

/// A display that is attached, without a route, and not granted yet.
pub open spec fn unavailable() -> KernelDisplayObservation {
    KernelDisplayObservation {
        topology: DisplayTopology::Attached { route: None },
        grant_state: DisplayGrantState::Pending,
    }
}

pub fn unavailable_observation() -> (observation: KernelDisplayObservation)
    ensures
        observation == unavailable(),
{
    KernelDisplayObservation {
        topology: DisplayTopology::Attached { route: None },
        grant_state: DisplayGrantState::Pending,
    }
}

/// What a failed look at a display means, if it has a meaning.
pub open spec fn failure_meaning(
    meaning: ErrnoMeaning,
    current: KernelDisplayObservation,
) -> Option<Observation> {
    match meaning {
        ErrnoMeaning::NoDevice => Some(Observation::State(unavailable())),
        ErrnoMeaning::AccessDenied => Some(
            Observation::State(
                KernelDisplayObservation {
                    topology: current.topology,
                    grant_state: DisplayGrantState::SuspendedForeignContent,
                },
            ),
        ),
        ErrnoMeaning::Revoked => Some(Observation::Revoked),
        ErrnoMeaning::Cancelled => Some(Observation::Revoked),
        ErrnoMeaning::Other => None,
    }
}

/// Classify a failed look at a display, given the numbers of the system.
pub fn classify_with(
    codes: ErrnoCodes,
    error: OsError,
    current: KernelDisplayObservation,
    operation: &'static str,
) -> (result: Result<Observation, KernelDisplayError>)
    ensures
        match failure_meaning(meaning_of(codes, error.code), current) {
            Some(observation) => result == Ok::<_, KernelDisplayError>(observation),
            None => result is Err && result->Err_0@ == kernel_error(operation@, error.text@),
        },
{
    match errno_meaning(codes, error.code) {
        ErrnoMeaning::NoDevice => Ok(Observation::State(unavailable_observation())),
        ErrnoMeaning::AccessDenied => Ok(
            Observation::State(
                KernelDisplayObservation {
                    topology: current.topology,
                    grant_state: DisplayGrantState::SuspendedForeignContent,
                },
            ),
        ),
        ErrnoMeaning::Revoked | ErrnoMeaning::Cancelled => Ok(Observation::Revoked),
        ErrnoMeaning::Other => Err(KernelDisplayError { operation, message: error.text }),
    }
}

/// The result is the classification under some numbers of a system.
pub open spec fn classified(
    result: Result<Observation, KernelDisplayError>,
    codes: ErrnoCodes,
    error: OsError,
    current: KernelDisplayObservation,
    operation: Seq<char>,
) -> bool {
    &&& codes.known()
    &&& match failure_meaning(meaning_of(codes, error.code), current) {
        Some(observation) => result == Ok::<_, KernelDisplayError>(observation),
        None => result is Err && result->Err_0@ == kernel_error(operation, error.text@),
    }
}

/// Classify a failed look at a display.
pub fn classify_capture_error(error: OsError, current: KernelDisplayObservation) -> (result: Result<
    Observation,
    KernelDisplayError,
>)
    ensures
        exists|codes: ErrnoCodes| #[trigger]
            classified(result, codes, error, current, "observe capture output"@),
        error.code is None ==> result is Err && result->Err_0@ == kernel_error(
            "observe capture output"@,
            error.text@,
        ),
        error.code == Some(19i32) ==> result == Ok::<_, KernelDisplayError>(
            Observation::State(unavailable()),
        ),
        error.code == Some(13i32) ==> result == Ok::<_, KernelDisplayError>(
            Observation::State(
                KernelDisplayObservation {
                    topology: current.topology,
                    grant_state: DisplayGrantState::SuspendedForeignContent,
                },
            ),
        ),
{
    let codes = errno_codes();
    let ghost failure = error;
    let result = classify_with(codes, error, current, "observe capture output");
    proof {
        assert(classified(result, codes, failure, current, "observe capture output"@));
    }
    result
}

/// A display that is active in one of its advertised sizes.
pub open spec fn advertises(modes: Seq<EdidMode>, width: u32, height: u32) -> bool {
    exists|i: int|
        0 <= i < modes.len() && (#[trigger] modes[i]).width == width && modes[i].height == height
}

/// The refusal of a size that is not advertised.
pub open spec fn size_refusal(width: u32, height: u32) -> Seq<char> {
    "active "@ + decimal(width as nat) + "x"@ + decimal(height as nat)
        + " output was not advertised in its EDID"@
}

pub fn active_observation(
    modes: &[EdidMode],
    crtc_id: NonZeroU32,
    width: u32,
    height: u32,
    refresh_millihz: u32,
    mode_flags: u32,
) -> (result: Result<KernelDisplayObservation, KernelDisplayError>)
    ensures
        matches_output(
            modes@,
            crtc_id,
            RoutedMode { width, height, refresh_millihz, flags: mode_flags },
            "match capture output"@,
            result,
        ),
{
    match_output(
        modes,
        crtc_id,
        RoutedMode { width, height, refresh_millihz, flags: mode_flags },
        "match capture output",
    )
}

/// The output is observed as routed, if its size was advertised.
pub open spec fn matches_output(
    modes: Seq<EdidMode>,
    crtc_id: NonZeroU32,
    mode: RoutedMode,
    operation: Seq<char>,
    result: Result<KernelDisplayObservation, KernelDisplayError>,
) -> bool {
    &&& result is Ok <==> advertises(modes, mode.width, mode.height)
    &&& result matches Ok(observation) ==> observation == (KernelDisplayObservation {
        topology: DisplayTopology::Attached {
            route: Some(ActiveRoute { target: RouteTarget(crtc_id), mode }),
        },
        grant_state: DisplayGrantState::Active,
    })
    &&& result matches Err(error) ==> error@ == kernel_error(
        operation,
        size_refusal(mode.width, mode.height),
    )
}

/// The observation of an active display, if it has an advertised size.
pub fn match_output(
    modes: &[EdidMode],
    crtc_id: NonZeroU32,
    mode: RoutedMode,
    operation: &'static str,
) -> (result: Result<KernelDisplayObservation, KernelDisplayError>)
    ensures
        matches_output(modes@, crtc_id, mode, operation@, result),
{
    let mut index: usize = 0;
    while index < modes.len()
        invariant
            index <= modes@.len(),
            forall|i: int|
                0 <= i < index ==> !((#[trigger] modes@[i]).width == mode.width && modes@[i].height
                    == mode.height),
        decreases modes@.len() - index,
    {
        if modes[index].width == mode.width && modes[index].height == mode.height {
            proof {
                assert(modes@[index as int].width == mode.width);
            }
            return Ok(
                KernelDisplayObservation {
                    topology: DisplayTopology::Attached {
                        route: Some(ActiveRoute { target: RouteTarget::new(crtc_id), mode }),
                    },
                    grant_state: DisplayGrantState::Active,
                },
            );
        }
        index += 1;
    }
    let mut text = "active ".to_owned();
    push_decimal(&mut text, mode.width as u64);
    text.append("x");
    push_decimal(&mut text, mode.height as u64);
    text.append(" output was not advertised in its EDID");
    Err(KernelDisplayError { operation, message: text })
}

/// How an observation was taken in, and what is told of it.
pub open spec fn takes_observation(
    before: KernelDisplayObservation,
    observation: Observation,
    after: KernelDisplayObservation,
    event: Option<KernelDisplayEvent>,
) -> bool {
    match observation {
        Observation::Revoked => {
            &&& event == Some(KernelDisplayEvent::Revoked)
            &&& after == before
        },
        Observation::State(seen) => {
            &&& after == seen
            &&& event == (if seen != before {
                Some(KernelDisplayEvent::Changed(seen))
            } else {
                None
            })
        },
    }
}

/// Take in an observation: the event that it makes, if it says something new.
pub fn observed(current: &mut KernelDisplayObservation, observation: Observation) -> (event: Option<
    KernelDisplayEvent,
>)
    ensures
        takes_observation(*old(current), observation, *final(current), event),
{
    match observation {
        Observation::Revoked => Some(KernelDisplayEvent::Revoked),
        Observation::State(seen) => {
            if seen != *current {
                *current = seen;
                Some(KernelDisplayEvent::Changed(seen))
            } else {
                None
            }
        },
    }
}

/// What the capture side says of an active output.
#[derive(Debug, Clone, Copy, PartialEq, Eq, Structural)]
pub struct CaptureDescription {
    pub width: NonZeroU32,
    pub height: NonZeroU32,
    pub refresh_millihz: NonZeroU32,
    pub mode_flags: u32,
}

/// What a look at a display is called when it fails.
#[derive(Debug, Clone, Copy)]
pub struct ObservationNames {
    pub observe: &'static str,
    pub matching: &'static str,
}

/// What a look at a display comes to, under the numbers of a system. The names
/// are those of a failed look, and of an output that does not match.
pub open spec fn seen(
    modes: Seq<EdidMode>,
    crtc_id: NonZeroU32,
    current: KernelDisplayObservation,
    described: Result<CaptureDescription, OsError>,
    codes: ErrnoCodes,
    names: (Seq<char>, Seq<char>),
) -> Result<Observation, KernelErrorView> {
    match described {
        Err(error) => match failure_meaning(meaning_of(codes, error.code), current) {
            Some(observation) => Ok(observation),
            None => Err(kernel_error(names.0, error.text@)),
        },
        Ok(output) => if advertises(modes, output.width@, output.height@) {
            Ok(
                Observation::State(
                    KernelDisplayObservation {
                        topology: DisplayTopology::Attached {
                            route: Some(
                                ActiveRoute {
                                    target: RouteTarget(crtc_id),
                                    mode: RoutedMode {
                                        width: output.width@,
                                        height: output.height@,
                                        refresh_millihz: output.refresh_millihz@,
                                        flags: output.mode_flags,
                                    },
                                },
                            ),
                        },
                        grant_state: DisplayGrantState::Active,
                    },
                ),
            )
        } else {
            Err(kernel_error(names.1, size_refusal(output.width@, output.height@)))
        },
    }
}

/// The result is what a look comes to.
pub open spec fn tells_what_is_seen(
    result: Result<Observation, KernelDisplayError>,
    seen: Result<Observation, KernelErrorView>,
) -> bool {
    match seen {
        Ok(observation) => result == Ok::<_, KernelDisplayError>(observation),
        Err(error) => result is Err && result->Err_0@ == error,
    }
}

/// Look at a display, given the numbers of the system.
pub fn observe_with(
    codes: ErrnoCodes,
    modes: &[EdidMode],
    crtc_id: NonZeroU32,
    current: KernelDisplayObservation,
    described: Result<CaptureDescription, OsError>,
    names: ObservationNames,
) -> (result: Result<Observation, KernelDisplayError>)
    ensures
        tells_what_is_seen(
            result,
            seen(modes@, crtc_id, current, described, codes, (names.observe@, names.matching@)),
        ),
{
    match described {
        Err(error) => classify_with(codes, error, current, names.observe),
        Ok(output) => {
            let mode = RoutedMode {
                width: output.width.get(),
                height: output.height.get(),
                refresh_millihz: output.refresh_millihz.get(),
                flags: output.mode_flags,
            };
            match match_output(modes, crtc_id, mode, names.matching) {
                Ok(observation) => Ok(Observation::State(observation)),
                Err(error) => Err(error),
            }
        },
    }
}

/// What a display is watched with, and what was seen last.
#[derive(Debug)]
pub struct KernelDisplay {
    pub crtc_id: NonZeroU32,
    pub modes: Vec<EdidMode>,
    pub current: KernelDisplayObservation,
}

/// What a look at an authorized display is called when it fails.
pub open spec fn own_names() -> (Seq<char>, Seq<char>) {
    ("observe capture output"@, "match capture output"@)
}

/// The next event of a display that was looked at: only what is new is told.
pub open spec fn tells_news(
    before: KernelDisplayObservation,
    seen: Result<Observation, KernelErrorView>,
    after: KernelDisplayObservation,
    result: Result<Option<KernelDisplayEvent>, KernelDisplayError>,
) -> bool {
    match seen {
        Err(error) => after == before && result is Err && result->Err_0@ == error,
        Ok(Observation::Revoked) => after == before && result == Ok::<_, KernelDisplayError>(
            Some(KernelDisplayEvent::Revoked),
        ),
        Ok(Observation::State(observation)) => {
            &&& after == observation
            &&& result == Ok::<_, KernelDisplayError>(
                if observation != before {
                    Some(KernelDisplayEvent::Changed(observation))
                } else {
                    None
                },
            )
        },
    }
}

/// How the observation of a display was prepared.
pub open spec fn prepares(
    config: KernelDisplayConfig,
    capture: Result<(), OsError>,
    result: Result<KernelDisplay, KernelDisplayError>,
) -> bool {
    if config.modes@.len() == 0 || config.poll_interval_ns == 0 {
        result is Err && result->Err_0@ == kernel_error(
            "configure display observation"@,
            "advertised modes and a nonzero poll interval are required"@,
        )
    } else {
        match capture {
            Err(error) => result is Err && result->Err_0@ == kernel_error(
                "retain capture for display observation"@,
                error.text@,
            ),
            Ok(_) => result == Ok::<_, KernelDisplayError>(
                KernelDisplay {
                    crtc_id: config.crtc_id,
                    modes: config.modes,
                    current: unavailable(),
                },
            ),
        }
    }
}

impl KernelDisplay {
    /// A display that nothing has been seen of yet, given what came of keeping
    /// its capture.
    pub fn prepare(config: KernelDisplayConfig, capture: Result<(), OsError>) -> (result: Result<
        KernelDisplay,
        KernelDisplayError,
    >)
        ensures
            prepares(config, capture, result),
    {
        if let Err(error) = require_observable(
            config.modes.len(),
            config.poll_interval_ns,
            "configure display observation",
        ) {
            return Err(error);
        }
        match capture {
            Err(error) => Err(
                KernelDisplayError {
                    operation: "retain capture for display observation",
                    message: error.text,
                },
            ),
            Ok(()) => Ok(
                KernelDisplay {
                    crtc_id: config.crtc_id,
                    modes: config.modes,
                    current: unavailable_observation(),
                },
            ),
        }
    }

    /// What is seen of the display, given what the capture side says of it.
    pub fn observe(&self, described: Result<CaptureDescription, OsError>) -> (result: Result<
        Observation,
        KernelDisplayError,
    >)
        ensures
            exists|codes: ErrnoCodes|
                codes.known() && tells_what_is_seen(
                    result,
                    #[trigger] seen(
                        self.modes@,
                        self.crtc_id,
                        self.current,
                        described,
                        codes,
                        own_names(),
                    ),
                ),
    {
        let names = ObservationNames {
            observe: "observe capture output",
            matching: "match capture output",
        };
        let codes = errno_codes();
        let ghost given = described;
        let result = observe_with(
            codes,
            self.modes.as_slice(),
            self.crtc_id,
            self.current,
            described,
            names,
        );
        proof {
            assert(tells_what_is_seen(
                result,
                seen(self.modes@, self.crtc_id, self.current, given, codes, own_names()),
            ));
        }
        result
    }

    /// Look at the display once more: the event that this makes, if any.
    pub fn next_event(&mut self, described: Result<CaptureDescription, OsError>) -> (result: Result<
        Option<KernelDisplayEvent>,
        KernelDisplayError,
    >)
        ensures
            final(self).modes == old(self).modes,
            final(self).crtc_id == old(self).crtc_id,
            exists|codes: ErrnoCodes|
                codes.known() && tells_news(
                    old(self).current,
                    #[trigger] seen(
                        old(self).modes@,
                        old(self).crtc_id,
                        old(self).current,
                        described,
                        codes,
                        own_names(),
                    ),
                    final(self).current,
                    result,
                ),
    {
        match self.observe(described) {
            Err(error) => Err(error),
            Ok(observation) => Ok(observed(&mut self.current, observation)),
        }
    }
}

/// What an attachment waits for.
#[derive(Debug)]
pub enum AttachPhase {
    /// Keep the capture of the session.
    RetainCapture(KernelDisplayConfig),
    /// Attach the monitor on a worker that looks for a cancellation first.
    AttachMonitor(KernelDisplay),
}

/// What came of it.
#[derive(Debug, PartialEq, Eq)]
pub enum AttachReply {
    Capture(Result<(), OsError>),
    /// What came of the worker: nothing, if it saw the cancellation before it
    /// touched the monitor.
    Monitor(Result<Option<Result<(), OsError>>, String>),
}

/// What to do with the session of a failed attachment.
#[derive(Debug, Clone, Copy, PartialEq, Eq, Structural)]
pub enum AttachCleanup {
    /// The session goes with the display.
    Nothing,
    /// The monitor is not attached: release the session.
    Release,
    /// The monitor is attached, but no longer wanted: detach it.
    Retire,
}

/// How an attachment goes on.
#[derive(Debug)]
pub enum AttachProgress {
    Next(AttachPhase),
    Attached(KernelDisplay),
    Failed { cleanup: AttachCleanup, error: AttachError },
}

/// The attachment begins as it is due: one that is not wanted any more touches
/// nothing, and observation is configured before the monitor changes.
pub open spec fn attach_begins(
    config: KernelDisplayConfig,
    cancelled: bool,
    progress: AttachProgress,
) -> bool {
    if cancelled {
        progress == (AttachProgress::Failed {
            cleanup: AttachCleanup::Release,
            error: AttachError::Cancelled,
        })
    } else if config.modes@.len() == 0 || config.poll_interval_ns == 0 {
        &&& progress matches AttachProgress::Failed {
            cleanup: AttachCleanup::Nothing,
            error: AttachError::Configuration(error),
        }
        &&& error@ == kernel_error(
            "configure display observation"@,
            "advertised modes and a nonzero poll interval are required"@,
        )
    } else {
        progress == AttachProgress::Next(AttachPhase::RetainCapture(config))
    }
}

/// The attachment goes on as it is due. It keeps waiting where the reply is
/// not the one that it waits for.
pub open spec fn attach_proceeds(
    phase: AttachPhase,
    reply: AttachReply,
    cancelled: bool,
    progress: AttachProgress,
) -> bool {
    match (phase, reply) {
        (AttachPhase::RetainCapture(config), AttachReply::Capture(Ok(_))) => progress
            == AttachProgress::Next(
            AttachPhase::AttachMonitor(
                KernelDisplay {
                    crtc_id: config.crtc_id,
                    modes: config.modes,
                    current: unavailable(),
                },
            ),
        ),
        (AttachPhase::RetainCapture(_), AttachReply::Capture(Err(failure))) => {
            &&& progress matches AttachProgress::Failed {
                cleanup: AttachCleanup::Nothing,
                error: AttachError::Configuration(error),
            }
            &&& error@ == kernel_error("retain capture for display observation"@, failure.text@)
        },
        (AttachPhase::AttachMonitor(_), AttachReply::Monitor(Err(text))) => progress == (
        AttachProgress::Failed {
            cleanup: AttachCleanup::Nothing,
            error: AttachError::Worker(text),
        }),
        (AttachPhase::AttachMonitor(display), AttachReply::Monitor(Ok(Some(Ok(_))))) => progress
            == (if cancelled {
            AttachProgress::Failed {
                cleanup: AttachCleanup::Retire,
                error: AttachError::Cancelled,
            }
        } else {
            AttachProgress::Attached(display)
        }),
        (AttachPhase::AttachMonitor(_), AttachReply::Monitor(Ok(Some(Err(error))))) => progress
            == (AttachProgress::Failed {
            cleanup: AttachCleanup::Release,
            error: if cancelled {
                AttachError::Cancelled
            } else {
                AttachError::Rejected(error)
            },
        }),
        (AttachPhase::AttachMonitor(_), AttachReply::Monitor(Ok(None))) => progress == (
        AttachProgress::Failed {
            cleanup: AttachCleanup::Release,
            error: AttachError::Cancelled,
        }),
        _ => progress == AttachProgress::Next(phase),
    }
}

impl KernelDisplay {
    /// Take in what the worker says that detached the monitor.
    pub fn monitor_detached(joined: Result<Result<(), OsError>, String>) -> (result: Result<
        Result<(), OsError>,
        KernelDisplayError,
    >)
        ensures
            match joined {
                Err(text) => result is Err && result->Err_0@ == kernel_error(
                    "join monitor detach"@,
                    text@,
                ),
                Ok(detached) => result is Ok && is_normal(result->Ok_0, detached),
            },
    {
        worker_detached(joined, "join monitor detach")
    }

    /// Begin to attach a monitor to a session.
    pub fn attach(config: KernelDisplayConfig, cancelled: bool) -> (progress: AttachProgress)
        ensures
            attach_begins(config, cancelled, progress),
    {
        if cancelled {
            return AttachProgress::Failed {
                cleanup: AttachCleanup::Release,
                error: AttachError::Cancelled,
            };
        }
        match require_observable(
            config.modes.len(),
            config.poll_interval_ns,
            "configure display observation",
        ) {
            Err(error) => AttachProgress::Failed {
                cleanup: AttachCleanup::Nothing,
                error: AttachError::Configuration(error),
            },
            Ok(()) => AttachProgress::Next(AttachPhase::RetainCapture(config)),
        }
    }
}

impl AttachPhase {
    /// Go on with what came of the phase. A monitor that was attached after a
    /// cancellation is not kept.
    pub fn proceed(self, reply: AttachReply, cancelled: bool) -> (progress: AttachProgress)
        requires
            self matches AttachPhase::RetainCapture(config) ==> config.modes@.len() > 0
                && config.poll_interval_ns > 0,
        ensures
            attach_proceeds(self, reply, cancelled, progress),
    {
        match (self, reply) {
            (AttachPhase::RetainCapture(config), AttachReply::Capture(capture)) => {
                match KernelDisplay::prepare(config, capture) {
                    Ok(display) => AttachProgress::Next(AttachPhase::AttachMonitor(display)),
                    Err(error) => AttachProgress::Failed {
                        cleanup: AttachCleanup::Nothing,
                        error: AttachError::Configuration(error),
                    },
                }
            },
            (AttachPhase::AttachMonitor(display), AttachReply::Monitor(tried)) => match tried {
                Err(text) => AttachProgress::Failed {
                    cleanup: AttachCleanup::Nothing,
                    error: AttachError::Worker(text),
                },
                Ok(Some(Ok(()))) => if cancelled {
                    AttachProgress::Failed {
                        cleanup: AttachCleanup::Retire,
                        error: AttachError::Cancelled,
                    }
                } else {
                    AttachProgress::Attached(display)
                },
                Ok(Some(Err(error))) => AttachProgress::Failed {
                    cleanup: AttachCleanup::Release,
                    error: if cancelled {
                        AttachError::Cancelled
                    } else {
                        AttachError::Rejected(error)
                    },
                },
                Ok(None) => AttachProgress::Failed {
                    cleanup: AttachCleanup::Release,
                    error: AttachError::Cancelled,
                },
            },
            (phase, _) => AttachProgress::Next(phase),
        }
    }
}

/// A monitor that is gone, or whose grant is, counts as detached.
pub open spec fn counts_as_detached(meaning: ErrnoMeaning) -> bool {
    meaning == ErrnoMeaning::Cancelled || meaning == ErrnoMeaning::Revoked || meaning
        == ErrnoMeaning::NoDevice
}

/// The detach counts as it should under some numbers of a system.
pub open spec fn normalized(
    normal: Result<(), OsError>,
    codes: ErrnoCodes,
    result: Result<(), OsError>,
) -> bool {
    match result {
        Err(error) => if counts_as_detached(meaning_of(codes, error.code)) {
            normal is Ok
        } else {
            normal == result
        },
        Ok(_) => normal is Ok,
    }
}

/// The detach counts as it should under the numbers of one of the systems.
pub open spec fn is_normal(normal: Result<(), OsError>, result: Result<(), OsError>) -> bool {
    exists|codes: ErrnoCodes| codes.known() && #[trigger] normalized(normal, codes, result)
}

/// The result of a detach, given the numbers of the system.
pub fn normalize_detach_with(codes: ErrnoCodes, result: Result<(), OsError>) -> (normal: Result<
    (),
    OsError,
>)
    ensures
        normalized(normal, codes, result),
{
    match result {
        Ok(()) => Ok(()),
        Err(error) => match errno_meaning(codes, error.code) {
            ErrnoMeaning::Cancelled | ErrnoMeaning::Revoked | ErrnoMeaning::NoDevice => Ok(()),
            ErrnoMeaning::AccessDenied | ErrnoMeaning::Other => Err(error),
        },
    }
}

/// The result of a detach: authority that is already gone is no failure.
pub fn normalize_detach(result: Result<(), OsError>) -> (normal: Result<(), OsError>)
    ensures
        is_normal(normal, result),
        result is Ok ==> normal is Ok,
        result matches Err(error) ==> (error.code is None ==> normal == result),
{
    normalize_detach_with(errno_codes(), result)
}

/// Take in what the worker says that detached the monitor. Where the worker is
/// gone, so is the session, and there is nothing to release.
pub fn worker_detached(joined: Result<Result<(), OsError>, String>, join: &'static str) -> (result:
    Result<Result<(), OsError>, KernelDisplayError>)
    ensures
        match joined {
            Err(text) => result is Err && result->Err_0@ == kernel_error(join@, text@),
            Ok(detached) => result is Ok && is_normal(result->Ok_0, detached),
        },
{
    match joined {
        Err(text) => Err(KernelDisplayError { operation: join, message: text }),
        Ok(detached) => Ok(normalize_detach(detached)),
    }
}

/// What a teardown is called when it fails.
pub struct DetachOperations {
    pub detach: &'static str,
    pub release: &'static str,
    pub both: &'static str,
}

/// The result tells what failed of a teardown, under the names of the operations.
pub open spec fn tells_teardown(
    operations: (Seq<char>, Seq<char>, Seq<char>),
    detach: Result<(), OsError>,
    release: Result<(), KernelSessionError>,
    result: Result<(), KernelDisplayError>,
) -> bool {
    match (detach, release) {
        (Ok(_), Ok(_)) => result is Ok,
        (Err(error), Ok(_)) => result is Err && result->Err_0@ == kernel_error(
            operations.0,
            error.text@,
        ),
        (Ok(_), Err(error)) => result is Err && result->Err_0@ == kernel_error(
            operations.1,
            error.text(),
        ),
        (Err(detach), Err(release)) => result is Err && result->Err_0@ == kernel_error(
            operations.2,
            "detach: "@ + detach.text@ + "; release: "@ + release.text(),
        ),
    }
}

/// The result of a teardown under the given names: the session is released
/// whether or not the monitor could be detached.
pub fn torn_down(
    operations: DetachOperations,
    detach: Result<(), OsError>,
    release: Result<(), KernelSessionError>,
) -> (result: Result<(), KernelDisplayError>)
    ensures
        tells_teardown(
            (operations.detach@, operations.release@, operations.both@),
            detach,
            release,
            result,
        ),
{
    match (detach, release) {
        (Ok(()), Ok(())) => Ok(()),
        (Err(error), Ok(())) => Err(
            KernelDisplayError { operation: operations.detach, message: error.text },
        ),
        (Ok(()), Err(error)) => Err(
            KernelDisplayError { operation: operations.release, message: error.to_text() },
        ),
        (Err(detach), Err(release)) => {
            let mut text = concat("detach: ", detach.text.as_str());
            text.append("; release: ");
            let released = release.to_text();
            text.append(released.as_str());
            Err(KernelDisplayError { operation: operations.both, message: text })
        },
    }
}

/// The result of a teardown.
pub fn detach(monitor: Result<(), OsError>, session: Result<(), KernelSessionError>) -> (result:
    Result<(), KernelDisplayError>)
    ensures
        tells_teardown(
            (
                "detach monitor"@,
                "release authorized display session"@,
                "detach and release authorized display session"@,
            ),
            monitor,
            session,
            result,
        ),
{
    torn_down(
        DetachOperations {
            detach: "detach monitor",
            release: "release authorized display session",
            both: "detach and release authorized display session",
        },
        monitor,
        session,
    )
}

/// A monitor that was attached is either kept or detached again, one that was
/// not attached never stays, and none is kept once the attachment is
/// cancelled.
pub proof fn attached_monitors_are_kept_or_retired(
    display: KernelDisplay,
    tried: Result<Option<Result<(), OsError>>, String>,
    cancelled: bool,
    progress: AttachProgress,
)
    requires
        attach_proceeds(
            AttachPhase::AttachMonitor(display),
            AttachReply::Monitor(tried),
            cancelled,
            progress,
        ),
    ensures
        progress is Attached <==> !cancelled && (tried matches Ok(Some(Ok(_)))),
        (progress matches AttachProgress::Failed { cleanup, .. } && cleanup
            == AttachCleanup::Retire) <==> cancelled && (tried matches Ok(Some(Ok(_)))),
{
}

/// A routed output is observed attached and granted, on its own pipe and in its own
/// mode, exactly if its EDID has a mode of that size; the refresh rate is not asked.
pub proof fn routed_outputs_are_seen_as_they_are(
    modes: Seq<EdidMode>,
    crtc_id: NonZeroU32,
    mode: RoutedMode,
    operation: Seq<char>,
    result: Result<KernelDisplayObservation, KernelDisplayError>,
    i: int,
)
    requires
        matches_output(modes, crtc_id, mode, operation, result),
    ensures
        0 <= i < modes.len() && modes[i].width == mode.width && modes[i].height == mode.height
            ==> result is Ok,
        (forall|j: int|
            0 <= j < modes.len() ==> (#[trigger] modes[j]).width != mode.width
                || modes[j].height != mode.height) ==> result is Err,
        result matches Ok(seen) ==> {
            &&& seen.grant_state is Active
            &&& seen.topology is Attached
            &&& seen.topology->Attached_route is Some
            &&& seen.topology->Attached_route->0.target == RouteTarget(crtc_id)
            &&& seen.topology->Attached_route->0.mode == mode
        },
        result matches Err(error) ==> error@.operation == operation,
{
}

/// What an output is described as is what is seen of it: the size, the rate and the
/// flags go to the mode of its route.
pub proof fn descriptions_are_seen_as_they_are(
    modes: Seq<EdidMode>,
    crtc_id: NonZeroU32,
    current: KernelDisplayObservation,
    output: CaptureDescription,
    codes: ErrnoCodes,
    names: (Seq<char>, Seq<char>),
)
    ensures
        ({
            let result = seen(modes, crtc_id, current, Ok(output), codes, names);
            &&& result is Ok <==> exists|i: int|
                0 <= i < modes.len() && (#[trigger] modes[i]).width == output.width@
                    && modes[i].height == output.height@
            &&& result is Ok ==> {
                &&& result->Ok_0 is State
                &&& result->Ok_0->State_0.grant_state is Active
                &&& result->Ok_0->State_0.topology is Attached
                &&& result->Ok_0->State_0.topology->Attached_route is Some
                &&& result->Ok_0->State_0.topology->Attached_route->0.target == RouteTarget(crtc_id)
                &&& result->Ok_0->State_0.topology->Attached_route->0.mode.width == output.width@
                &&& result->Ok_0->State_0.topology->Attached_route->0.mode.height == output.height@
                &&& result->Ok_0->State_0.topology->Attached_route->0.mode.refresh_millihz
                    == output.refresh_millihz@
                &&& result->Ok_0->State_0.topology->Attached_route->0.mode.flags
                    == output.mode_flags
            }
            &&& result is Err ==> {
                let (observing, matching) = names;
                result->Err_0.operation == matching
            }
        }),
{
}

/// A failed observation says what it means: without a device there is no route, and
/// the grant is awaited; without access the route is as it was, and somebody else is
/// shown; a revocation ends it; all else is a failure with its text.
pub proof fn failed_observations_say_what_they_mean(
    modes: Seq<EdidMode>,
    crtc_id: NonZeroU32,
    current: KernelDisplayObservation,
    error: OsError,
    codes: ErrnoCodes,
    names: (Seq<char>, Seq<char>),
)
    ensures
        ({
            let meaning = meaning_of(codes, error.code);
            let result = seen(modes, crtc_id, current, Err(error), codes, names);
            &&& result is Err <==> meaning is Other
            &&& result is Err ==> {
                let (observing, matching) = names;
                result->Err_0.operation == observing && result->Err_0.message == error.text@
            }
            &&& result is Ok && result->Ok_0 is Revoked <==> meaning is Revoked || meaning
                is Cancelled
            &&& meaning is NoDevice ==> result->Ok_0->State_0.grant_state is Pending
                && result->Ok_0->State_0.topology == (DisplayTopology::Attached { route: None })
            &&& meaning is AccessDenied ==> result->Ok_0->State_0.grant_state
                is SuspendedForeignContent && result->Ok_0->State_0.topology == current.topology
        }),
{
}

/// A change is told exactly when something changed, with what is seen now; what is
/// told is what the display holds from then on. A failure and a revocation change
/// nothing.
pub proof fn changes_are_told_once(
    before: KernelDisplayObservation,
    told: Result<Observation, KernelErrorView>,
    after: KernelDisplayObservation,
    result: Result<Option<KernelDisplayEvent>, KernelDisplayError>,
    later: KernelDisplayObservation,
    again: Result<Option<KernelDisplayEvent>, KernelDisplayError>,
)
    requires
        tells_news(before, told, after, result),
        tells_news(after, told, later, again),
    ensures
        told is Err <==> result is Err,
        told is Err ==> result->Err_0@ == told->Err_0,
        told is Err || told->Ok_0 is Revoked ==> after == before,
        told is Ok && told->Ok_0 is Revoked ==> result->Ok_0 is Some && result->Ok_0->0 is Revoked,
        told is Ok && told->Ok_0 is State ==> {
            &&& after == told->Ok_0->State_0
            &&& result->Ok_0 is None <==> after == before
            &&& result->Ok_0 is Some ==> result->Ok_0->0 is Changed && result->Ok_0->0->Changed_0
                == after
            &&& later == after
            &&& again->Ok_0 is None
        },
{
}

/// An observation that is taken in is held, and told if it is news.
pub proof fn taken_observations_are_held(
    before: KernelDisplayObservation,
    observation: Observation,
    after: KernelDisplayObservation,
    event: Option<KernelDisplayEvent>,
)
    requires
        takes_observation(before, observation, after, event),
    ensures
        observation is State ==> after == observation->State_0,
        observation is Revoked ==> after == before,
        event is None <==> observation is State && observation->State_0 == before,
        event is Some && observation is Revoked ==> event->0 is Revoked,
        event is Some && observation is State ==> event->0 is Changed && event->0->Changed_0
            == after,
{
}

/// A display can be observed if it has a mode and a pace, and its capture could be
/// kept; it starts without a route, for the pipe and the modes that it was given.
pub proof fn prepared_displays_start_without_a_route(
    config: KernelDisplayConfig,
    capture: Result<(), OsError>,
    result: Result<KernelDisplay, KernelDisplayError>,
)
    requires
        prepares(config, capture, result),
    ensures
        result is Ok <==> config.modes@.len() > 0 && config.poll_interval_ns > 0 && capture is Ok,
        result matches Ok(display) ==> {
            &&& display.crtc_id == config.crtc_id
            &&& display.modes == config.modes
            &&& display.current.topology == (DisplayTopology::Attached { route: None })
            &&& display.current.grant_state is Pending
        },
        config.modes@.len() > 0 && config.poll_interval_ns > 0 && capture is Err
            ==> result->Err_0@.message == capture->Err_0.text@,
{
}

/// An attachment goes from the capture to the monitor and ends attached only if both
/// went well and nobody gave it up in between; the display is the one that was asked
/// for.
pub proof fn attachments_need_every_step(
    config: KernelDisplayConfig,
    capture: Result<(), OsError>,
    monitor: Result<Option<Result<(), OsError>>, String>,
    first: AttachProgress,
    second: AttachProgress,
    third: AttachProgress,
    cancelled: bool,
)
    requires
        attach_begins(config, false, first),
        first is Next,
        attach_proceeds(first->Next_0, AttachReply::Capture(capture), false, second),
        capture is Ok ==> second is Next && attach_proceeds(
            second->Next_0,
            AttachReply::Monitor(monitor),
            cancelled,
            third,
        ),
    ensures
        capture is Err ==> second is Failed && second->error is Configuration && second->cleanup
            is Nothing,
        capture is Ok ==> {
            &&& third is Attached <==> !cancelled && monitor is Ok && monitor->Ok_0 is Some
                && monitor->Ok_0->0 is Ok
            &&& third is Attached ==> third->Attached_0.crtc_id == config.crtc_id
                && third->Attached_0.modes == config.modes
            &&& third is Attached || third is Failed
            &&& third is Failed ==> {
                &&& third->cleanup is Retire <==> monitor is Ok && monitor->Ok_0 is Some
                    && monitor->Ok_0->0 is Ok
                &&& third->cleanup is Nothing <==> monitor is Err
                &&& third->error is Worker <==> monitor is Err
                &&& third->error is Rejected <==> !cancelled && monitor is Ok && monitor->Ok_0
                    is Some && monitor->Ok_0->0 is Err
                &&& third->error is Rejected ==> third->error->Rejected_0
                    == monitor->Ok_0->0->Err_0
                &&& third->error is Worker ==> third->error->Worker_0 == monitor->Err_0
                &&& third->error is Cancelled <==> monitor is Ok && (cancelled || monitor->Ok_0
                    is None)
            }
        },
{
}

/// An attachment that was given up before it began touches nothing and lets the
/// session go; one without a mode or a pace is refused.
pub proof fn attachments_begin_only_if_they_can_be_observed(
    config: KernelDisplayConfig,
    cancelled: bool,
    progress: AttachProgress,
)
    requires
        attach_begins(config, cancelled, progress),
    ensures
        progress is Next <==> !cancelled && config.modes@.len() > 0 && config.poll_interval_ns > 0,
        progress is Next ==> progress->Next_0 is RetainCapture && progress->Next_0->RetainCapture_0
            == config,
        cancelled ==> progress is Failed && progress->error is Cancelled && progress->cleanup
            is Release,
        !cancelled && progress is Failed ==> progress->error is Configuration && progress->cleanup
            is Nothing,
{
}

/// A monitor that is gone, or was taken away, is as good as detached; any other
/// failure is passed on.
pub proof fn lost_monitors_count_as_detached(
    normal: Result<(), OsError>,
    codes: ErrnoCodes,
    result: Result<(), OsError>,
)
    requires
        normalized(normal, codes, result),
    ensures
        result is Ok ==> normal is Ok,
        result is Err ==> ({
            let meaning = meaning_of(codes, result->Err_0.code);
            &&& normal is Ok <==> meaning is Cancelled || meaning is Revoked || meaning is NoDevice
            &&& normal is Err ==> normal->Err_0 == result->Err_0
        }),
{
}

/// A teardown succeeds if both its parts do; a failure is told under the name of the
/// part that failed, with its text, and two are told together.
pub proof fn teardowns_tell_what_failed(
    operations: (Seq<char>, Seq<char>, Seq<char>),
    detach: Result<(), OsError>,
    release: Result<(), KernelSessionError>,
    result: Result<(), KernelDisplayError>,
)
    requires
        tells_teardown(operations, detach, release, result),
    ensures
        ({
            let (detaching, releasing, both) = operations;
            &&& result is Ok <==> detach is Ok && release is Ok
            &&& detach is Err && release is Ok ==> result->Err_0@.operation == detaching
                && result->Err_0@.message == detach->Err_0.text@
            &&& detach is Ok && release is Err ==> result->Err_0@.operation == releasing
                && result->Err_0@.message == release->Err_0.text()
            &&& detach is Err && release is Err ==> {
                let text = result->Err_0@.message;
                let first = detach->Err_0.text@;
                let second = release->Err_0.text();
                &&& result->Err_0@.operation == both
                &&& text.len() == 8 + first.len() + 11 + second.len()
                &&& text.subrange(8, 8 + first.len() as int) == first
                &&& text.skip(text.len() - second.len()) == second
            }
        }),
{
    if detach is Err && release is Err {
        reveal_strlit("detach: ");
        reveal_strlit("; release: ");
        let text = result->Err_0@.message;
        let first = detach->Err_0.text@;
        let second = release->Err_0.text();
        assert(text.subrange(8, 8 + first.len() as int) =~= first);
        assert(text.skip(text.len() - second.len()) =~= second);
    }
}

/// The text of a failed attachment begins with the words of its kind.
pub proof fn attachment_failures_say_their_kind(value: AttachError)
    ensures
        value is Cancelled ==> "monitor attachment was cancelled"@.is_prefix_of(value.text()),
        value is Configuration ==> "prepare display observation: "@.is_prefix_of(value.text()),
        value is Rejected ==> "attach monitor: "@.is_prefix_of(value.text()),
        value is Worker ==> "monitor attachment worker failed: "@.is_prefix_of(value.text()),
{
    let text = value.text();
    if value is Cancelled {
        assert("monitor attachment was cancelled"@ =~= text.subrange(
            0,
            "monitor attachment was cancelled"@.len() as int,
        ));
    }
    if value is Configuration {
        assert("prepare display observation: "@ =~= text.subrange(
            0,
            "prepare display observation: "@.len() as int,
        ));
    }
    if value is Rejected {
        assert("attach monitor: "@ =~= text.subrange(0, "attach monitor: "@.len() as int));
    }
    if value is Worker {
        assert("monitor attachment worker failed: "@ =~= text.subrange(
            0,
            "monitor attachment worker failed: "@.len() as int,
        ));
    }
}

/// The text of a size that was not advertised names the width, then the height.
pub proof fn unadvertised_sizes_are_named(width: u32, height: u32)
    ensures
        ({
            let text = size_refusal(width, height);
            let across = decimal(width as nat);
            let down = decimal(height as nat);
            &&& text.subrange(7, 7 + across.len() as int) == across
            &&& text.subrange(
                8 + across.len() as int,
                8 + across.len() as int + down.len() as int,
            ) == down
        }),
{
    reveal_strlit("active ");
    reveal_strlit("x");
    let text = size_refusal(width, height);
    let across = decimal(width as nat);
    let down = decimal(height as nat);
    assert(text.subrange(7, 7 + across.len() as int) =~= across);
    assert(text.subrange(8 + across.len() as int, 8 + across.len() as int + down.len() as int)
        =~= down);
}

/// The names that failures of the observation have.
pub proof fn observations_are_named()
    ensures
        ({
            let (observing, matching) = own_names();
            observing == "observe capture output"@ && matching == "match capture output"@
        }),
{
}

} // verus!
