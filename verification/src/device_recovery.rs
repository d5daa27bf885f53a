//! Recovery of a display's device session.
//!
//! Only replacement attempts and their generations are decided here. Media
//! state and the active session belong to others.

pub mod transaction;

use crate::device_session_port::DeviceSessionEvent;
use crate::nonzero::{nonzero_u64_ext, NonZeroU64};
use crate::protocol::DeviceInfo;
use crate::text::{clip, clipped, concat};
use vstd::prelude::*;
use vstd::string::*;
use vstd::utf8::encode_utf8;

verus! {

broadcast use nonzero_u64_ext;

/// Longest diagnostic of a recovery.
pub const MAX_RECOVERY_ERROR_BYTES: usize = 512;

/// Why no replacement session was made.
#[derive(Debug, PartialEq, Eq)]
pub enum DeviceSessionFactoryError {
    Cancelled,
    Failed(String),
}

/// The error as one line.
pub open spec fn factory_error_text(error: DeviceSessionFactoryError) -> Seq<char> {
    match error {
        DeviceSessionFactoryError::Cancelled => "Device-session recovery was cancelled"@,
        DeviceSessionFactoryError::Failed(text) => text@,
    }
}

impl DeviceSessionFactoryError {
    pub fn to_text(&self) -> (text: String)
        ensures
            text@ == factory_error_text(*self),
    {
        match self {
            DeviceSessionFactoryError::Cancelled => {
                "Device-session recovery was cancelled".to_owned()
            },
            DeviceSessionFactoryError::Failed(text) => text.clone(),
        }
    }

    pub fn failed(message: &str) -> (error: Self)
        ensures
            error matches DeviceSessionFactoryError::Failed(text) && text@ == bounded(
                message@,
                MAX_RECOVERY_ERROR_BYTES as nat,
            ),
    {
        DeviceSessionFactoryError::Failed(
            bounded_text(message.to_owned(), MAX_RECOVERY_ERROR_BYTES),
        )
    }
}

/// What the recovery of a session reports.
#[derive(Debug, PartialEq, Eq)]
pub enum DeviceSessionRecoveryEvent {
    Ready {
        request_generation: u64,
        device: DeviceInfo,
        session_generation: NonZeroU64,
        retired_session_cleanup_error: Option<String>,
    },
    Failed { request_generation: u64, device: DeviceInfo, error: String },
    TransportFailed { session_generation: NonZeroU64, error: String },
}

#[derive(Debug, PartialEq, Eq)]
pub enum DeviceSessionRecoveryError {
    NoRuntime,
    Stopped,
    GenerationExhausted,
    Join(String),
}

impl DeviceSessionRecoveryError {
    /// The error as one line.
    pub open spec fn text(self) -> Seq<char> {
        match self {
            DeviceSessionRecoveryError::NoRuntime =>
                "DeviceSessionRecoveryActor requires a running Tokio runtime"@,
            DeviceSessionRecoveryError::Stopped => "Device-session recovery actor stopped"@,
            DeviceSessionRecoveryError::GenerationExhausted =>
                "Device-session recovery generation exhausted"@,
            DeviceSessionRecoveryError::Join(error) =>
                "Device-session recovery actor task failed: "@ + error@,
        }
    }

    pub fn to_text(&self) -> (text: String)
        ensures
            text@ == self.text(),
    {
        match self {
            DeviceSessionRecoveryError::NoRuntime =>
                "DeviceSessionRecoveryActor requires a running Tokio runtime".to_owned(),
            DeviceSessionRecoveryError::Stopped =>
                "Device-session recovery actor stopped".to_owned(),
            DeviceSessionRecoveryError::GenerationExhausted =>
                "Device-session recovery generation exhausted".to_owned(),
            DeviceSessionRecoveryError::Join(error) =>
                concat("Device-session recovery actor task failed: ", error.as_str()),
        }
    }
}

/// A text that fits `maximum` bytes, or as much of it as leaves room for three
/// dots.
pub open spec fn bounded(text: Seq<char>, maximum: nat) -> Seq<char> {
    if encode_utf8(text).len() <= maximum {
        text
    } else {
        clip(
            text,
            if maximum >= 3 {
                (maximum - 3) as nat
            } else {
                0
            },
        ) + "..."@
    }
}

pub fn bounded_text(value: String, maximum: usize) -> (result: String)
    ensures
        result@ == bounded(value@, maximum as nat),
{
    if value.as_str().as_bytes().len() <= maximum {
        return value;
    }
    let room: usize = if maximum >= 3 {
        maximum - 3
    } else {
        0
    };
    let mut text = clipped(value.as_str(), room);
    text.append("...");
    text
}

/// A bounded diagnostic fits its bound, from three bytes on.
pub proof fn bounded_texts_fit(text: Seq<char>, maximum: nat)
    requires
        maximum >= 3,
    ensures
        encode_utf8(bounded(text, maximum)).len() <= maximum,
{
    if encode_utf8(text).len() > maximum {
        let room = (maximum - 3) as nat;
        crate::text::clip_is_the_longest_fitting_prefix(text, room);
        reveal_strlit("...");
        crate::text::encoded_length_adds_up(clip(text, room), "..."@);
        crate::text::ascii_length("..."@);
    }
}

/// The requests of a display for another session. Each has a number of its own
/// and can be cancelled until the next one is made.
#[derive(Debug, Clone, Copy, PartialEq, Eq, Structural)]
pub struct DeviceSessionRecoveryHandle {
    pub request_generation: u64,
    /// The newest request is cancelled.
    pub phase_cancelled: bool,
}

/// How another session was asked for: the request gets the next number, as long as
/// there is one.
pub open spec fn asks_again(
    before: DeviceSessionRecoveryHandle,
    after: DeviceSessionRecoveryHandle,
    result: Result<u64, DeviceSessionRecoveryError>,
) -> bool {
    match result {
        Ok(generation) => {
            &&& before.request_generation < u64::MAX
            &&& generation == before.request_generation + 1
            &&& after == before.renewed()
        },
        Err(error) => {
            &&& before.request_generation == u64::MAX
            &&& error == DeviceSessionRecoveryError::GenerationExhausted
            &&& after == before
        },
    }
}

impl DeviceSessionRecoveryHandle {
    /// Whether an attempt for the request is to stop.
    pub open spec fn cancels(self, request: u64) -> bool {
        request < self.request_generation || request == self.request_generation
            && self.phase_cancelled
    }

    /// The requests with one more.
    pub open spec fn renewed(self) -> DeviceSessionRecoveryHandle {
        DeviceSessionRecoveryHandle {
            request_generation: (self.request_generation + 1) as u64,
            phase_cancelled: false,
        }
    }

    pub fn new() -> (handle: Self)
        ensures
            handle == (DeviceSessionRecoveryHandle {
                request_generation: 0,
                phase_cancelled: false,
            }),
    {
        DeviceSessionRecoveryHandle { request_generation: 0, phase_cancelled: false }
    }

    fn begin_request(&mut self, generation: u64)
        ensures
            *final(self) == (DeviceSessionRecoveryHandle {
                request_generation: generation,
                phase_cancelled: false,
            }),
    {
        self.request_generation = generation;
        self.phase_cancelled = false;
    }

    /// The number of a new request. From here on every request before it is
    /// cancelled; the new one is not.
    pub fn recover(&mut self) -> (result: Result<u64, DeviceSessionRecoveryError>)
        ensures
            asks_again(*old(self), *final(self), result),
    {
        match self.request_generation.checked_add(1) {
            Some(generation) => {
                self.begin_request(generation);
                Ok(generation)
            },
            None => Err(DeviceSessionRecoveryError::GenerationExhausted),
        }
    }

    /// What a request comes to once it was handed over, or nobody was there to
    /// take it.
    pub fn requested(generation: u64, taken: bool) -> (result: Result<
        u64,
        DeviceSessionRecoveryError,
    >)
        ensures
            result == (if taken {
                Ok(generation)
            } else {
                Err(DeviceSessionRecoveryError::Stopped)
            }),
    {
        if taken {
            Ok(generation)
        } else {
            Err(DeviceSessionRecoveryError::Stopped)
        }
    }

    /// Cancel the newest request.
    pub fn cancel_phase(&mut self)
        ensures
            *final(self) == (DeviceSessionRecoveryHandle {
                phase_cancelled: true,
                ..*old(self)
            }),
    {
        self.phase_cancelled = true;
    }

    /// Whether an attempt for the request is to stop.
    pub fn is_cancelled(&self, request: u64) -> (cancelled: bool)
        ensures
            cancelled == self.cancels(request),
    {
        request < self.request_generation || request == self.request_generation
            && self.phase_cancelled
    }
}

/// A new request cancels the attempts for all requests before it, and is not
/// cancelled itself.
pub proof fn new_requests_cancel_the_ones_ahead(
    requests: DeviceSessionRecoveryHandle,
    request: u64,
)
    requires
        requests.request_generation < u64::MAX,
    ensures
        request <= requests.request_generation ==> requests.renewed().cancels(request),
        !requests.renewed().cancels((requests.request_generation + 1) as u64),
{
}

/// The event tells the failure of a request for a device, with as much of the
/// reason as fits.
pub open spec fn tells_failure(
    event: DeviceSessionRecoveryEvent,
    request_generation: u64,
    device: DeviceInfo,
    error: Seq<char>,
) -> bool {
    event matches DeviceSessionRecoveryEvent::Failed {
        request_generation: generation,
        device: target,
        error: text,
    } && generation == request_generation && target == device && text@ == bounded(
        error,
        MAX_RECOVERY_ERROR_BYTES as nat,
    )
}

/// The report of a failed request.
pub fn send_failure(request_generation: u64, device: DeviceInfo, error: String) -> (event:
    DeviceSessionRecoveryEvent)
    ensures
        tells_failure(event, request_generation, device, error@),
{
    DeviceSessionRecoveryEvent::Failed {
        request_generation,
        device,
        error: bounded_text(error, MAX_RECOVERY_ERROR_BYTES),
    }
}

/// What a recovery keeps between requests.
#[derive(Debug, Clone, Copy, PartialEq, Eq, Structural)]
pub struct RecoveryState {
    pub last_session_generation: NonZeroU64,
    /// The current session still reports.
    pub events_open: bool,
}

/// What a recovery waits for.
#[derive(Debug, Clone, Copy, PartialEq, Eq, Structural)]
pub enum RecoveryWait {
    CommandOrSessionEvent,
    Command,
}

/// How an event of the current session, or the end of its events, was taken in.
pub open spec fn takes_session_event(
    before: RecoveryState,
    event: Option<DeviceSessionEvent>,
    after: RecoveryState,
    report: DeviceSessionRecoveryEvent,
) -> bool {
    &&& after == (RecoveryState { events_open: false, ..before })
    &&& report matches DeviceSessionRecoveryEvent::TransportFailed {
        session_generation,
        error,
    } && match event {
        Some(event) => session_generation == event.session_generation && error@ == bounded(
            event.error@,
            MAX_RECOVERY_ERROR_BYTES as nat,
        ),
        None => session_generation == before.last_session_generation && error@ == bounded(
            "Device-session event source stopped"@,
            MAX_RECOVERY_ERROR_BYTES as nat,
        ),
    }
}

/// How an attempt at another session was begun: it gets the next generation, as
/// long as there is one.
pub open spec fn begins_attempt(
    before: RecoveryState,
    after: RecoveryState,
    generation: Option<NonZeroU64>,
) -> bool {
    match generation {
        Some(generation) => {
            &&& before.last_session_generation@ < u64::MAX
            &&& generation@ == before.last_session_generation@ + 1
            &&& after == (RecoveryState { last_session_generation: generation, events_open: false })
        },
        None => {
            &&& before.last_session_generation@ == u64::MAX
            &&& after == before
        },
    }
}

impl RecoveryState {
    pub fn new(initial_session_generation: NonZeroU64) -> (state: Self)
        ensures
            state == (RecoveryState {
                last_session_generation: initial_session_generation,
                events_open: true,
            }),
    {
        RecoveryState { last_session_generation: initial_session_generation, events_open: true }
    }

    /// What to wait for next.
    pub fn waits_for(&self) -> (wait: RecoveryWait)
        ensures
            wait == (if self.events_open {
                RecoveryWait::CommandOrSessionEvent
            } else {
                RecoveryWait::Command
            }),
    {
        if self.events_open {
            RecoveryWait::CommandOrSessionEvent
        } else {
            RecoveryWait::Command
        }
    }

    /// Take in the terminal event of the current session, or the end of its
    /// events; the session reports no more.
    pub fn session_event(&mut self, event: Option<DeviceSessionEvent>) -> (report:
        DeviceSessionRecoveryEvent)
        ensures
            takes_session_event(*old(self), event, *final(self), report),
    {
        self.events_open = false;
        match event {
            Some(event) => DeviceSessionRecoveryEvent::TransportFailed {
                session_generation: event.session_generation,
                error: bounded_text(event.error, MAX_RECOVERY_ERROR_BYTES),
            },
            None => DeviceSessionRecoveryEvent::TransportFailed {
                session_generation: self.last_session_generation,
                error: bounded_text(
                    "Device-session event source stopped".to_owned(),
                    MAX_RECOVERY_ERROR_BYTES,
                ),
            },
        }
    }

    /// Claim the generation of the next session. Every attempt uses one up,
    /// also one whose outcome is ambiguous; the current session's events end.
    pub fn begin_attempt(&mut self) -> (generation: Option<NonZeroU64>)
        ensures
            begins_attempt(*old(self), *final(self), generation),
    {
        match self.last_session_generation.get().checked_add(1) {
            None => None,
            Some(next) => match NonZeroU64::new(next) {
                None => None,
                Some(generation) => {
                    self.last_session_generation = generation;
                    self.events_open = false;
                    Some(generation)
                },
            },
        }
    }

    /// Take in the session that was installed: it reports from now on.
    pub fn installed(&mut self)
        ensures
            *final(self) == (RecoveryState { events_open: true, ..*old(self) }),
    {
        self.events_open = true;
    }
}

/// The report of a request that finds all generations used up.
pub fn generations_exhausted(request_generation: u64, device: DeviceInfo) -> (event:
    DeviceSessionRecoveryEvent)
    ensures
        tells_failure(event, request_generation, device, "Device-session generation exhausted"@),
{
    send_failure(request_generation, device, "Device-session generation exhausted".to_owned())
}

/// A text that fits is kept whole. Of one that does not, a beginning is kept, as long
/// as can be, and three dots show that something is missing.
pub proof fn shortened_texts_show_it(text: Seq<char>, maximum: nat)
    requires
        maximum >= 3,
    ensures
        encode_utf8(text).len() <= maximum <==> bounded(text, maximum) == text,
        encode_utf8(text).len() > maximum ==> {
            let short = bounded(text, maximum);
            let kept = short.take(short.len() - 3);
            &&& short.len() >= 3
            &&& short.skip(short.len() - 3) == seq!['.', '.', '.']
            &&& kept.is_prefix_of(text)
            &&& kept.len() < text.len()
            &&& encode_utf8(text.take(kept.len() as int + 1)).len() > maximum - 3
        },
{
    if encode_utf8(text).len() > maximum {
        let room = (maximum - 3) as nat;
        let short = bounded(text, maximum);
        let kept = clip(text, room);
        crate::text::clip_is_the_longest_fitting_prefix(text, room);
        bounded_texts_fit(text, maximum);
        reveal_strlit("...");
        assert(short.take(short.len() - 3) =~= kept);
        assert(short.skip(short.len() - 3) =~= seq!['.', '.', '.']);
        if kept.len() >= text.len() {
            assert(kept =~= text);
        }
    }
}

/// Requests are numbered one after the other, and none is made past the last
/// number. A new one is not cancelled; every one before it is.
pub proof fn requests_are_numbered_in_order(
    before: DeviceSessionRecoveryHandle,
    after: DeviceSessionRecoveryHandle,
    result: Result<u64, DeviceSessionRecoveryError>,
    earlier: u64,
)
    requires
        asks_again(before, after, result),
    ensures
        result is Err <==> before.request_generation == 0xffff_ffff_ffff_ffff,
        result is Err ==> after == before && result->Err_0 is GenerationExhausted,
        result is Ok ==> result->Ok_0 == before.request_generation + 1,
        result is Ok ==> after.request_generation == result->Ok_0,
        result is Ok ==> !after.cancels(result->Ok_0),
        result is Ok && earlier < result->Ok_0 ==> after.cancels(earlier),
{
}

/// A request is cancelled by name only: cancelling the newest leaves later ones
/// alone, and cancels all that came before.
pub proof fn cancelling_reaches_the_newest_request(
    requests: DeviceSessionRecoveryHandle,
    request: u64,
)
    ensures
        requests.phase_cancelled ==> (requests.cancels(request) <==> request
            <= requests.request_generation),
        !requests.phase_cancelled ==> (requests.cancels(request) <==> request
            < requests.request_generation),
{
}

/// The failure of a request names the request and the device, and tells the reason
/// whole if that fits in 512 bytes.
pub proof fn failures_name_their_request(
    event: DeviceSessionRecoveryEvent,
    request_generation: u64,
    device: DeviceInfo,
    error: Seq<char>,
)
    requires
        tells_failure(event, request_generation, device, error),
    ensures
        event is Failed,
        event->Failed_request_generation == request_generation,
        event->Failed_device == device,
        encode_utf8(error).len() <= 512 ==> event->Failed_error@ == error,
        encode_utf8(event->Failed_error@).len() <= 512,
{
    bounded_texts_fit(error, 512);
}

/// The first event of a session, or the end of its events, is the failure of its
/// transport; the session is not listened to any more.
pub proof fn session_events_end_the_listening(
    before: RecoveryState,
    event: Option<DeviceSessionEvent>,
    after: RecoveryState,
    report: DeviceSessionRecoveryEvent,
)
    requires
        takes_session_event(before, event, after, report),
    ensures
        !after.events_open,
        after.last_session_generation == before.last_session_generation,
        report is TransportFailed,
        event is Some ==> report->TransportFailed_session_generation
            == event->0.session_generation,
        event is None ==> report->TransportFailed_session_generation
            == before.last_session_generation,
        event is Some && encode_utf8(
            event->0.error@,
        ).len() <= 512 ==> report->TransportFailed_error@
            == event->0.error@,
        event is None ==> report->TransportFailed_error@ == "Device-session event source stopped"@,
{
    reveal_strlit("Device-session event source stopped");
    crate::text::ascii_length("Device-session event source stopped"@);
}

/// Each attempt has a generation of its own, one after the other; none is begun past
/// the last.
pub proof fn attempts_are_numbered_in_order(
    before: RecoveryState,
    after: RecoveryState,
    generation: Option<NonZeroU64>,
)
    requires
        begins_attempt(before, after, generation),
    ensures
        generation is None <==> before.last_session_generation@ == 0xffff_ffff_ffff_ffff,
        generation is None ==> after == before,
        generation is Some ==> generation->0@ == before.last_session_generation@ + 1,
        generation is Some ==> after.last_session_generation == generation->0,
        generation is Some ==> !after.events_open,
{
}

/// A factory that failed tells its own text, and a task that failed ends in its cause.
pub proof fn recovery_texts_end_in_the_cause(
    error: DeviceSessionFactoryError,
    failure: DeviceSessionRecoveryError,
)
    ensures
        error matches DeviceSessionFactoryError::Failed(text) ==> factory_error_text(
            error,
        ) == text@,
        error is Cancelled ==> factory_error_text(
            error,
        ) == "Device-session recovery was cancelled"@,
        failure matches DeviceSessionRecoveryError::Join(cause) ==> failure.text().skip(
            failure.text().len() - cause@.len(),
        ) == cause@,
{
    match failure {
        DeviceSessionRecoveryError::Join(cause) => {
            let text = failure.text();
            assert(text.skip(text.len() - cause@.len()) =~= cause@);
        },
        _ => {},
    }
}

/// The text of a failed recovery begins with the words of its kind.
pub proof fn recovery_failures_say_their_kind(value: DeviceSessionRecoveryError)
    ensures
        value is NoRuntime ==> "DeviceSessionRecoveryActor requires a running Tokio runtime"@.is_prefix_of(value.text()),
        value is Stopped ==> "Device-session recovery actor stopped"@.is_prefix_of(value.text()),
        value is GenerationExhausted ==> "Device-session recovery generation exhausted"@.is_prefix_of(value.text()),
        value is Join ==> "Device-session recovery actor task failed: "@.is_prefix_of(value.text()),
{
    let text = value.text();
    if value is NoRuntime {
        assert("DeviceSessionRecoveryActor requires a running Tokio runtime"@ =~= text.subrange(
            0,
            "DeviceSessionRecoveryActor requires a running Tokio runtime"@.len() as int,
        ));
    }
    if value is Stopped {
        assert("Device-session recovery actor stopped"@ =~= text.subrange(
            0,
            "Device-session recovery actor stopped"@.len() as int,
        ));
    }
    if value is GenerationExhausted {
        assert("Device-session recovery generation exhausted"@ =~= text.subrange(
            0,
            "Device-session recovery generation exhausted"@.len() as int,
        ));
    }
    if value is Join {
        assert("Device-session recovery actor task failed: "@ =~= text.subrange(
            0,
            "Device-session recovery actor task failed: "@.len() as int,
        ));
    }
}

} // verus!
