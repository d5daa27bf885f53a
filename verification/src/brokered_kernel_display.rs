//! Observation and teardown of one brokered kernel display.

use crate::display_state::{DisplayGrantState, RoutedMode};
use crate::kernel_display::{
    classified, classify_with, is_normal, match_output, matches_output, observe_with, observed,
    require_observable, seen, tells_news, tells_teardown, tells_what_is_seen, torn_down,
    unavailable, unavailable_observation, worker_detached, CaptureDescription, DetachOperations,
    EdidMode, Observation, ObservationNames,
};
use crate::kernel_display_port::{
    kernel_error, KernelDisplayError, KernelDisplayEvent, KernelDisplayObservation,
};
use crate::kernel_session::KernelSessionError;
use crate::nonzero::NonZeroU32;
use crate::os_error::{errno_codes, ErrnoCodes, OsError};
use vstd::prelude::*;

verus! {

/// What a brokered display is watched with, and what was seen last.
#[derive(Debug)]
pub struct BrokeredKernelDisplay {
    pub crtc_id: NonZeroU32,
    pub modes: Vec<EdidMode>,
    pub current: KernelDisplayObservation,
}

/// What a look at a brokered display is called when it fails.
pub open spec fn brokered_names() -> (Seq<char>, Seq<char>) {
    ("observe brokered capture output"@, "match brokered capture output"@)
}

/// How the watch of a brokered display was made.
pub open spec fn watches(
    crtc_id: NonZeroU32,
    modes: Vec<EdidMode>,
    poll_interval_ns: u64,
    result: Result<BrokeredKernelDisplay, KernelDisplayError>,
) -> bool {
    if modes@.len() == 0 || poll_interval_ns == 0 {
        result is Err && result->Err_0@ == kernel_error(
            "configure brokered display observation"@,
            "advertised modes and a nonzero poll interval are required"@,
        )
    } else {
        result == Ok::<_, KernelDisplayError>(
            BrokeredKernelDisplay { crtc_id, modes, current: unavailable() },
        )
    }
}

impl BrokeredKernelDisplay {
    /// A display that nothing has been seen of yet.
    pub fn new(crtc_id: NonZeroU32, modes: Vec<EdidMode>, poll_interval_ns: u64) -> (result: Result<
        Self,
        KernelDisplayError,
    >)
        ensures
            watches(crtc_id, modes, poll_interval_ns, result),
    {
        match require_observable(
            modes.len(),
            poll_interval_ns,
            "configure brokered display observation",
        ) {
            Err(error) => Err(error),
            Ok(()) => Ok(
                BrokeredKernelDisplay { crtc_id, modes, current: unavailable_observation() },
            ),
        }
    }

    /// What is seen of the display, given what the capture side says of it
    /// once it has been opened.
    pub fn observe(&self, described: Result<CaptureDescription, OsError>) -> (result: Result<
        Observation,
        KernelDisplayError,
    >)
        ensures
            exists|codes: ErrnoCodes|
                codes.known() && tells_what_is_seen(
                    result,
                    #[trigger] seen(
                        self.modes@,
                        self.crtc_id,
                        self.current,
                        described,
                        codes,
                        brokered_names(),
                    ),
                ),
    {
        let names = ObservationNames {
            observe: "observe brokered capture output",
            matching: "match brokered capture output",
        };
        let codes = errno_codes();
        let ghost given = described;
        let result = observe_with(
            codes,
            self.modes.as_slice(),
            self.crtc_id,
            self.current,
            described,
            names,
        );
        proof {
            assert(tells_what_is_seen(
                result,
                seen(self.modes@, self.crtc_id, self.current, given, codes, brokered_names()),
            ));
        }
        result
    }

    /// Look at the display once more: the event that this makes, if any.
    pub fn next_event(&mut self, described: Result<CaptureDescription, OsError>) -> (result: Result<
        Option<KernelDisplayEvent>,
        KernelDisplayError,
    >)
        ensures
            final(self).modes == old(self).modes,
            final(self).crtc_id == old(self).crtc_id,
            exists|codes: ErrnoCodes|
                codes.known() && tells_news(
                    old(self).current,
                    #[trigger] seen(
                        old(self).modes@,
                        old(self).crtc_id,
                        old(self).current,
                        described,
                        codes,
                        brokered_names(),
                    ),
                    final(self).current,
                    result,
                ),
    {
        match self.observe(described) {
            Err(error) => Err(error),
            Ok(observation) => Ok(observed(&mut self.current, observation)),
        }
    }

    /// Take in what the worker says that detached the monitor.
    pub fn monitor_detached(joined: Result<Result<(), OsError>, String>) -> (result: Result<
        Result<(), OsError>,
        KernelDisplayError,
    >)
        ensures
            match joined {
                Err(text) => result is Err && result->Err_0@ == kernel_error(
                    "join brokered monitor detach"@,
                    text@,
                ),
                Ok(detached) => result is Ok && is_normal(result->Ok_0, detached),
            },
    {
        worker_detached(joined, "join brokered monitor detach")
    }
}

/// Classify a failed look at a brokered display.
pub fn classify_capture_error(error: OsError, current: KernelDisplayObservation) -> (result: Result<
    Observation,
    KernelDisplayError,
>)
    ensures
        exists|codes: ErrnoCodes| #[trigger]
            classified(result, codes, error, current, "observe brokered capture output"@),
        error.code is None ==> result is Err && result->Err_0@ == kernel_error(
            "observe brokered capture output"@,
            error.text@,
        ),
        error.code == Some(19i32) ==> result == Ok::<_, KernelDisplayError>(
            Observation::State(unavailable()),
        ),
        error.code == Some(13i32) ==> result == Ok::<_, KernelDisplayError>(
            Observation::State(
                KernelDisplayObservation {
                    topology: current.topology,
                    grant_state: DisplayGrantState::SuspendedForeignContent,
                },
            ),
        ),
{
    let codes = errno_codes();
    let ghost failure = error;
    let result = classify_with(codes, error, current, "observe brokered capture output");
    proof {
        assert(classified(result, codes, failure, current, "observe brokered capture output"@));
    }
    result
}

pub fn active_observation(
    modes: &[EdidMode],
    crtc_id: NonZeroU32,
    width: u32,
    height: u32,
    refresh_millihz: u32,
    mode_flags: u32,
) -> (result: Result<KernelDisplayObservation, KernelDisplayError>)
    ensures
        matches_output(
            modes@,
            crtc_id,
            RoutedMode { width, height, refresh_millihz, flags: mode_flags },
            "match brokered capture output"@,
            result,
        ),
{
    match_output(
        modes,
        crtc_id,
        RoutedMode { width, height, refresh_millihz, flags: mode_flags },
        "match brokered capture output",
    )
}

/// The result of the teardown of a brokered display.
pub fn detach(monitor: Result<(), OsError>, session: Result<(), KernelSessionError>) -> (result:
    Result<(), KernelDisplayError>)
    ensures
        tells_teardown(
            (
                "detach brokered monitor"@,
                "release brokered display session"@,
                "detach and release brokered display session"@,
            ),
            monitor,
            session,
            result,
        ),
{
    torn_down(
        DetachOperations {
            detach: "detach brokered monitor",
            release: "release brokered display session",
            both: "detach and release brokered display session",
        },
        monitor,
        session,
    )
}

/// A brokered display is watched if it has a mode and a pace, for the pipe and the
/// modes that it was given; it starts without a route.
pub proof fn brokered_displays_start_without_a_route(
    crtc_id: NonZeroU32,
    modes: Vec<EdidMode>,
    poll_interval_ns: u64,
    result: Result<BrokeredKernelDisplay, KernelDisplayError>,
)
    requires
        watches(crtc_id, modes, poll_interval_ns, result),
    ensures
        result is Ok <==> modes@.len() > 0 && poll_interval_ns > 0,
        result matches Ok(display) ==> {
            &&& display.crtc_id == crtc_id
            &&& display.modes == modes
            &&& display.current.topology is Attached
            &&& display.current.topology->Attached_route is None
            &&& display.current.grant_state is Pending
        },
{
}

} // verus!
