//! Media lifecycle of a device session at its backend.

use crate::device_session_port::{
    DeviceMediaConfiguration, DeviceMediaKind, DeviceMediaSetup, DeviceMediaStopReason,
    DeviceMediaSuspendReason, DeviceMediaTarget, DeviceSessionError, DeviceSessionEvent,
    DeviceSessionStopReason, RenderDeviceIdentity,
};
use crate::nonzero::{nonzero_u64_ext, NonZeroU64};
use crate::text::{concat, decimal, push_decimal};
use vstd::prelude::*;
use vstd::string::*;

verus! {

broadcast use nonzero_u64_ext;

/// How far the backend is with the media of a session.
#[derive(Debug, Clone, Copy, PartialEq, Eq, Structural)]
pub enum BackendMediaLifecycle {
    Prepared { last_completed: Option<NonZeroU64> },
    Configured(NonZeroU64),
    Streaming(NonZeroU64),
    Suspended(NonZeroU64),
    /// The peer may have observed the operation. Only generation-matched
    /// cleanup or final session teardown is safe from this state.
    Uncertain(NonZeroU64),
}

#[derive(Debug, Clone, Copy, PartialEq, Eq, Structural)]
pub enum BackendMediaPhase {
    Configured,
    Streaming,
    Suspended,
}

/// How a configuration was asked for: whether it was let through, and what is
/// known of the media from then on.
pub open spec fn configured(
    before: BackendMediaLifecycle,
    after: BackendMediaLifecycle,
    validity: Result<(), String>,
    generation: NonZeroU64,
    result: Result<(), DeviceSessionError>,
) -> bool {
    match result {
        Ok(_) => {
            &&& validity is Ok
            &&& before.admits_configuration(generation)
            &&& after == BackendMediaLifecycle::Uncertain(generation)
        },
        Err(error) => {
            &&& !(validity is Ok && before.admits_configuration(generation))
            &&& after == before
            &&& error.0@ == (match validity {
                Err(defect) => "invalid media setup: "@ + defect@,
                Ok(_) => match before {
                    BackendMediaLifecycle::Prepared {
                        last_completed: Some(completed),
                    } => "media generation "@ + decimal(generation@ as nat)
                        + " is not newer than completed generation "@ + decimal(completed@ as nat),
                    state => state.refusal("configure"@, generation),
                },
            })
        },
    }
}

/// How a stop was asked for: whether there is anything to stop, and what is known
/// of the media from then on.
pub open spec fn stopped(
    before: BackendMediaLifecycle,
    after: BackendMediaLifecycle,
    generation: NonZeroU64,
    result: Result<bool, DeviceSessionError>,
) -> bool {
    match result {
        Ok(true) => {
            &&& before.active() == Some(generation)
            &&& after == BackendMediaLifecycle::Uncertain(generation)
        },
        Ok(false) => {
            &&& before.consumes_stop(generation)
            &&& after == (BackendMediaLifecycle::Prepared { last_completed: Some(generation) })
        },
        Err(error) => {
            &&& before.active() != Some(generation)
            &&& !before.consumes_stop(generation)
            &&& after == before
            &&& error.0@ == before.refusal("stop"@, generation)
        },
    }
}

impl BackendMediaLifecycle {
    /// The state in words.
    pub open spec fn described(self) -> Seq<char> {
        match self {
            BackendMediaLifecycle::Prepared {
                last_completed: Some(generation),
            } => "prepared (last completed generation "@ + decimal(generation@ as nat) + ")"@,
            BackendMediaLifecycle::Prepared {
                last_completed: None,
            } => "prepared (no completed generation)"@,
            BackendMediaLifecycle::Configured(generation) => "configured generation "@ + decimal(
                generation@ as nat,
            ),
            BackendMediaLifecycle::Streaming(generation) => "streaming generation "@ + decimal(
                generation@ as nat,
            ),
            BackendMediaLifecycle::Suspended(generation) => "suspended generation "@ + decimal(
                generation@ as nat,
            ),
            BackendMediaLifecycle::Uncertain(generation) => "uncertain generation "@ + decimal(
                generation@ as nat,
            ),
        }
    }

    /// The refusal of an operation in this state.
    pub open spec fn refusal(self, operation: Seq<char>, generation: NonZeroU64) -> Seq<char> {
        "cannot "@ + operation + " media generation "@ + decimal(generation@ as nat)
            + " while backend media is "@ + self.described()
    }

    /// The generation can still be configured: nothing is under way, and the
    /// generation is newer than any that has been completed.
    pub open spec fn admits_configuration(self, generation: NonZeroU64) -> bool {
        match self {
            BackendMediaLifecycle::Prepared { last_completed: None } => true,
            BackendMediaLifecycle::Prepared {
                last_completed: Some(completed),
            } => generation@ > completed@,
            _ => false,
        }
    }

    /// The media is in the phase that an operation requires, with its
    /// generation.
    pub open spec fn is_in(self, phase: BackendMediaPhase, generation: NonZeroU64) -> bool {
        match phase {
            BackendMediaPhase::Configured => self == BackendMediaLifecycle::Configured(generation),
            BackendMediaPhase::Streaming => self == BackendMediaLifecycle::Streaming(generation),
            BackendMediaPhase::Suspended => self == BackendMediaLifecycle::Suspended(generation),
        }
    }

    /// The generation that the backend may know of and has not completed.
    pub open spec fn active(self) -> Option<NonZeroU64> {
        match self {
            BackendMediaLifecycle::Prepared { .. } => None,
            BackendMediaLifecycle::Configured(generation) => Some(generation),
            BackendMediaLifecycle::Streaming(generation) => Some(generation),
            BackendMediaLifecycle::Suspended(generation) => Some(generation),
            BackendMediaLifecycle::Uncertain(generation) => Some(generation),
        }
    }

    /// Nothing is under way, and the generation is none that was completed
    /// before the last.
    pub open spec fn consumes_stop(self, generation: NonZeroU64) -> bool {
        match self {
            BackendMediaLifecycle::Prepared { last_completed: None } => true,
            BackendMediaLifecycle::Prepared {
                last_completed: Some(completed),
            } => generation@ >= completed@,
            _ => false,
        }
    }

    /// Before a configuration is sent: from now on the backend may know of it.
    pub fn begin_configure(&mut self, media_generation: NonZeroU64) -> (result: Result<
        (),
        DeviceSessionError,
    >)
        ensures
            configured(*old(self), *final(self), Ok(()), media_generation, result),
    {
        match *self {
            BackendMediaLifecycle::Prepared { last_completed: None } => {
                *self = BackendMediaLifecycle::Uncertain(media_generation);
                Ok(())
            },
            BackendMediaLifecycle::Prepared { last_completed: Some(completed) } => {
                if media_generation.get() > completed.get() {
                    *self = BackendMediaLifecycle::Uncertain(media_generation);
                    return Ok(());
                }
                let mut text = "media generation ".to_owned();
                push_decimal(&mut text, media_generation.get());
                text.append(" is not newer than completed generation ");
                push_decimal(&mut text, completed.get());
                Err(DeviceSessionError(text))
            },
            state => Err(state.refused("configure", media_generation)),
        }
    }

    /// Before a configuration is sent, given what the protocol's own validation
    /// says about it.
    pub fn begin_configure_media(
        &mut self,
        validity: Result<(), String>,
        media_generation: NonZeroU64,
    ) -> (result: Result<(), DeviceSessionError>)
        ensures
            configured(*old(self), *final(self), validity, media_generation, result),
    {
        match validity {
            Err(error) => Err(
                DeviceSessionError(concat("invalid media setup: ", error.as_str())),
            ),
            Ok(()) => self.begin_configure(media_generation),
        }
    }

    /// Before an operation is sent that requires a phase.
    pub fn begin_transition(
        &mut self,
        media_generation: NonZeroU64,
        required: BackendMediaPhase,
        operation: &'static str,
    ) -> (result: Result<(), DeviceSessionError>)
        ensures
            result is Ok <==> old(self).is_in(required, media_generation),
            result is Ok ==> *final(self) == BackendMediaLifecycle::Uncertain(media_generation),
            result is Err ==> *final(self) == *old(self) && result->Err_0.0@ == old(
                self,
            ).refusal(operation@, media_generation),
    {
        let matches = match (*self, required) {
            (BackendMediaLifecycle::Configured(active), BackendMediaPhase::Configured) => active
                == media_generation,
            (BackendMediaLifecycle::Streaming(active), BackendMediaPhase::Streaming) => active
                == media_generation,
            (BackendMediaLifecycle::Suspended(active), BackendMediaPhase::Suspended) => active
                == media_generation,
            _ => false,
        };
        if !matches {
            return Err(self.refused(operation, media_generation));
        }
        *self = BackendMediaLifecycle::Uncertain(media_generation);
        Ok(())
    }

    /// Before a stop is sent; false when there is nothing to send, because this
    /// exact generation is already stopped or never reached the backend.
    ///
    /// A configuration may be refused before it is sent. The caller treats
    /// every error as ambiguous and follows it with a stop; that stop consumes
    /// the generation.
    pub fn begin_stop(&mut self, media_generation: NonZeroU64) -> (result: Result<
        bool,
        DeviceSessionError,
    >)
        ensures
            stopped(*old(self), *final(self), media_generation, result),
    {
        match *self {
            BackendMediaLifecycle::Prepared { last_completed } => {
                let newer = match last_completed {
                    None => true,
                    Some(completed) => media_generation.get() >= completed.get(),
                };
                if newer {
                    *self = BackendMediaLifecycle::Prepared {
                        last_completed: Some(media_generation),
                    };
                    return Ok(false);
                }
            },
            BackendMediaLifecycle::Configured(active)
            | BackendMediaLifecycle::Streaming(active)
            | BackendMediaLifecycle::Suspended(active)
            | BackendMediaLifecycle::Uncertain(active) => {
                if active == media_generation {
                    *self = BackendMediaLifecycle::Uncertain(media_generation);
                    return Ok(true);
                }
            },
        }
        Err(self.refused("stop", media_generation))
    }

    /// After the reply to a configuration.
    pub fn finish_configure(&mut self, media_generation: NonZeroU64, reply: Result<(), String>) -> (
    result: Result<(), DeviceSessionError>)
        ensures
            (*final(self), result) == after_reply(
                *old(self),
                BackendMediaLifecycle::Configured(media_generation),
                reply,
            ),
    {
        self.settle(BackendMediaLifecycle::Configured(media_generation), reply)
    }

    /// After the reply to a start or a resume.
    pub fn finish_start(&mut self, media_generation: NonZeroU64, reply: Result<(), String>) -> (
    result: Result<(), DeviceSessionError>)
        ensures
            (*final(self), result) == after_reply(
                *old(self),
                BackendMediaLifecycle::Streaming(media_generation),
                reply,
            ),
    {
        self.settle(BackendMediaLifecycle::Streaming(media_generation), reply)
    }

    /// After the reply to a suspension.
    pub fn finish_suspend(&mut self, media_generation: NonZeroU64, reply: Result<(), String>) -> (
    result: Result<(), DeviceSessionError>)
        ensures
            (*final(self), result) == after_reply(
                *old(self),
                BackendMediaLifecycle::Suspended(media_generation),
                reply,
            ),
    {
        self.settle(BackendMediaLifecycle::Suspended(media_generation), reply)
    }

    /// After the reply to a stop.
    pub fn finish_stop(&mut self, media_generation: NonZeroU64, reply: Result<(), String>) -> (
    result: Result<(), DeviceSessionError>)
        ensures
            (*final(self), result) == after_reply(
                *old(self),
                BackendMediaLifecycle::Prepared { last_completed: Some(media_generation) },
                reply,
            ),
    {
        self.settle(
            BackendMediaLifecycle::Prepared { last_completed: Some(media_generation) },
            reply,
        )
    }

    fn settle(&mut self, reached: BackendMediaLifecycle, reply: Result<(), String>) -> (result:
        Result<(), DeviceSessionError>)
        ensures
            (*final(self), result) == after_reply(*old(self), reached, reply),
    {
        match reply {
            Ok(()) => {
                *self = reached;
                Ok(())
            },
            Err(error) => Err(DeviceSessionError(error)),
        }
    }

    fn refused(self, operation: &str, media_generation: NonZeroU64) -> (error: DeviceSessionError)
        ensures
            error.0@ == self.refusal(operation@, media_generation),
    {
        let mut text = concat("cannot ", operation);
        text.append(" media generation ");
        push_decimal(&mut text, media_generation.get());
        text.append(" while backend media is ");
        let description = self.description();
        text.append(description.as_str());
        DeviceSessionError(text)
    }

    pub fn description(self) -> (text: String)
        ensures
            text@ == self.described(),
    {
        match self {
            BackendMediaLifecycle::Prepared { last_completed: Some(generation) } => {
                let mut text = "prepared (last completed generation ".to_owned();
                push_decimal(&mut text, generation.get());
                text.append(")");
                text
            },
            BackendMediaLifecycle::Prepared { last_completed: None } =>
                "prepared (no completed generation)".to_owned(),
            BackendMediaLifecycle::Configured(generation) => numbered(
                "configured generation ",
                generation,
            ),
            BackendMediaLifecycle::Streaming(generation) => numbered(
                "streaming generation ",
                generation,
            ),
            BackendMediaLifecycle::Suspended(generation) => numbered(
                "suspended generation ",
                generation,
            ),
            BackendMediaLifecycle::Uncertain(generation) => numbered(
                "uncertain generation ",
                generation,
            ),
        }
    }
}

/// Only a good reply moves the state on; after a bad one the outcome stays
/// uncertain.
pub open spec fn after_reply(
    state: BackendMediaLifecycle,
    reached: BackendMediaLifecycle,
    reply: Result<(), String>,
) -> (BackendMediaLifecycle, Result<(), DeviceSessionError>) {
    match reply {
        Ok(_) => (reached, Ok(())),
        Err(error) => (state, Err(DeviceSessionError(error))),
    }
}

fn numbered(text: &str, generation: NonZeroU64) -> (result: String)
    ensures
        result@ == text@ + decimal(generation@ as nat),
{
    let mut result = text.to_owned();
    push_decimal(&mut result, generation.get());
    result
}

/// What a backend says about the end of a session.
#[derive(Debug, PartialEq, Eq)]
pub enum BackendSessionEvent {
    Disconnected { session_generation: NonZeroU64, error_text: String },
    FatalError { session_generation: NonZeroU64, error_text: String },
    ConnectionClosed { session_generation: NonZeroU64 },
    MonitorFailed { session_generation: NonZeroU64, error_text: String },
}

/// The session and the diagnostic that an event stands for.
pub open spec fn session_event(event: BackendSessionEvent) -> (NonZeroU64, Seq<char>) {
    match event {
        BackendSessionEvent::Disconnected { session_generation, error_text } => (
            session_generation,
            "Device disconnected: "@ + error_text@,
        ),
        BackendSessionEvent::FatalError { session_generation, error_text } => (
            session_generation,
            "Device session failed: "@ + error_text@,
        ),
        BackendSessionEvent::ConnectionClosed { session_generation } => (
            session_generation,
            "backend P2P connection closed"@,
        ),
        BackendSessionEvent::MonitorFailed { session_generation, error_text } => (
            session_generation,
            "Device-session event monitor failed: "@ + error_text@,
        ),
    }
}

pub fn map_session_event(event: BackendSessionEvent) -> (mapped: DeviceSessionEvent)
    ensures
        (mapped.session_generation, mapped.error@) == session_event(event),
{
    match event {
        BackendSessionEvent::Disconnected { session_generation, error_text } => {
            DeviceSessionEvent {
                session_generation,
                error: concat("Device disconnected: ", error_text.as_str()),
            }
        },
        BackendSessionEvent::FatalError { session_generation, error_text } => DeviceSessionEvent {
            session_generation,
            error: concat("Device session failed: ", error_text.as_str()),
        },
        BackendSessionEvent::ConnectionClosed { session_generation } => DeviceSessionEvent {
            session_generation,
            error: "backend P2P connection closed".to_owned(),
        },
        BackendSessionEvent::MonitorFailed { session_generation, error_text } => {
            DeviceSessionEvent {
                session_generation,
                error: concat("Device-session event monitor failed: ", error_text.as_str()),
            }
        },
    }
}

/// Why the backend is asked to suspend media.
#[derive(Debug, Clone, Copy, PartialEq, Eq, Structural)]
pub enum SuspendReason {
    OutputDisabled,
    ModeChange,
    DeviceUnavailable,
    SessionInactive,
}

/// Why the backend is asked to stop.
#[derive(Debug, Clone, Copy, PartialEq, Eq, Structural)]
pub enum StopReason {
    UserRequest,
    DisplayRemoved,
    BackendShutdown,
    TransportFailure,
}

/// The reason of a suspension as a backend is told.
pub open spec fn told_suspension(reason: DeviceMediaSuspendReason) -> SuspendReason {
    match reason {
        DeviceMediaSuspendReason::OutputDisabled => SuspendReason::OutputDisabled,
        DeviceMediaSuspendReason::ModeChanged => SuspendReason::ModeChange,
        DeviceMediaSuspendReason::DeviceUnavailable => SuspendReason::DeviceUnavailable,
        DeviceMediaSuspendReason::SessionInactive => SuspendReason::SessionInactive,
    }
}

pub fn map_suspend_reason(reason: DeviceMediaSuspendReason) -> (mapped: SuspendReason)
    ensures
        mapped == told_suspension(reason),
{
    match reason {
        DeviceMediaSuspendReason::OutputDisabled => SuspendReason::OutputDisabled,
        DeviceMediaSuspendReason::ModeChanged => SuspendReason::ModeChange,
        DeviceMediaSuspendReason::DeviceUnavailable => SuspendReason::DeviceUnavailable,
        DeviceMediaSuspendReason::SessionInactive => SuspendReason::SessionInactive,
    }
}

/// The reason of a stop of the media as a backend is told.
pub open spec fn told_media_stop(reason: DeviceMediaStopReason) -> StopReason {
    match reason {
        DeviceMediaStopReason::OutputDisabled => StopReason::UserRequest,
        DeviceMediaStopReason::ModeChanged => StopReason::UserRequest,
        DeviceMediaStopReason::DisplayRemoved => StopReason::DisplayRemoved,
        DeviceMediaStopReason::BackendShutdown => StopReason::BackendShutdown,
        DeviceMediaStopReason::TransportFailure => StopReason::TransportFailure,
    }
}

pub fn map_media_stop_reason(reason: DeviceMediaStopReason) -> (mapped: StopReason)
    ensures
        mapped == told_media_stop(reason),
{
    match reason {
        DeviceMediaStopReason::OutputDisabled | DeviceMediaStopReason::ModeChanged => {
            StopReason::UserRequest
        },
        DeviceMediaStopReason::DisplayRemoved => StopReason::DisplayRemoved,
        DeviceMediaStopReason::BackendShutdown => StopReason::BackendShutdown,
        DeviceMediaStopReason::TransportFailure => StopReason::TransportFailure,
    }
}

/// The reason of the end of a session as a backend is told.
pub open spec fn told_session_stop(reason: DeviceSessionStopReason) -> StopReason {
    match reason {
        DeviceSessionStopReason::DisplayRemoved => StopReason::DisplayRemoved,
        DeviceSessionStopReason::DaemonShutdown => StopReason::BackendShutdown,
    }
}

pub fn map_session_stop_reason(reason: DeviceSessionStopReason) -> (mapped: StopReason)
    ensures
        mapped == told_session_stop(reason),
{
    match reason {
        DeviceSessionStopReason::DisplayRemoved => StopReason::DisplayRemoved,
        DeviceSessionStopReason::DaemonShutdown => StopReason::BackendShutdown,
    }
}

/// A media target as the backend protocol writes it.
#[derive(Debug, PartialEq, Eq)]
pub struct PipeWireTarget {
    pub kind: DeviceMediaKind,
    pub node_name: String,
    pub object_serial: u64,
    pub session_id: String,
    pub device_instance: String,
    pub connector_id: u32,
    pub output_index: u32,
    pub media_generation: u64,
    pub render_device: Option<RenderDeviceIdentity>,
    pub caps: String,
}

pub fn map_media_target(target: DeviceMediaTarget) -> (mapped: PipeWireTarget)
    ensures
        mapped == wire_target(target),
{
    PipeWireTarget {
        kind: target.kind,
        node_name: target.node_name,
        object_serial: target.object_serial.get(),
        session_id: target.session_id,
        device_instance: target.device_instance,
        connector_id: target.connector_id.get(),
        output_index: target.output_index,
        media_generation: target.media_generation.get(),
        render_device: target.render_device,
        caps: target.caps,
    }
}

/// A display mode as the backend protocol writes it.
#[derive(Debug, Clone, Copy, PartialEq, Eq, Structural)]
pub struct DisplayMode {
    pub width: u32,
    pub height: u32,
    pub refresh_millihz: u32,
    pub flags: u32,
}

/// A media configuration as the backend protocol writes it.
#[derive(Debug, PartialEq, Eq)]
pub struct MediaConfiguration {
    pub video_profile_id: String,
    pub audio_profile_id: Option<String>,
    pub mode: DisplayMode,
    pub video_bitrate: u64,
}

/// The configuration as a backend is told.
pub open spec fn wire_configuration(configuration: DeviceMediaConfiguration) -> MediaConfiguration {
    MediaConfiguration {
        video_profile_id: configuration.video_profile_id,
        audio_profile_id: configuration.audio_profile_id,
        mode: DisplayMode {
            width: configuration.mode.width,
            height: configuration.mode.height,
            refresh_millihz: configuration.mode.refresh_millihz,
            flags: 0,
        },
        video_bitrate: configuration.video_bitrate@,
    }
}

/// The kernel's timing flags stay behind: the protocol reserves the field, and
/// a device has no use for sync polarities.
pub fn map_configuration(configuration: DeviceMediaConfiguration) -> (mapped: MediaConfiguration)
    ensures
        mapped == wire_configuration(configuration),
{
    MediaConfiguration {
        video_profile_id: configuration.video_profile_id,
        audio_profile_id: configuration.audio_profile_id,
        mode: DisplayMode {
            width: configuration.mode.width,
            height: configuration.mode.height,
            refresh_millihz: configuration.mode.refresh_millihz,
            flags: 0,
        },
        video_bitrate: configuration.video_bitrate.get(),
    }
}

/// A configuration to send to the backend.
#[derive(Debug, PartialEq, Eq)]
pub struct ConfigureRequest {
    pub targets: Vec<PipeWireTarget>,
    pub configuration: MediaConfiguration,
    pub media_generation: NonZeroU64,
}

/// The target as the backend protocol writes it.
pub open spec fn wire_target(target: DeviceMediaTarget) -> PipeWireTarget {
    PipeWireTarget {
        kind: target.kind,
        node_name: target.node_name,
        object_serial: target.object_serial@,
        session_id: target.session_id,
        device_instance: target.device_instance,
        connector_id: target.connector_id@,
        output_index: target.output_index,
        media_generation: target.media_generation@,
        render_device: target.render_device,
        caps: target.caps,
    }
}

/// The request asks for the setup: each of its targets, in order.
pub open spec fn requests(setup: DeviceMediaSetup, request: ConfigureRequest) -> bool {
    &&& request.media_generation == setup.media_generation
    &&& request.configuration == wire_configuration(setup.configuration)
    &&& request.targets@ == setup.targets@.map_values(
        |target: DeviceMediaTarget| wire_target(target),
    )
}

/// The setup as the backend protocol writes it, targets in their order.
pub fn configure_request(setup: DeviceMediaSetup) -> (request: ConfigureRequest)
    ensures
        requests(setup, request),
{
    let ghost all = setup.targets@;
    let ghost wire = |target: DeviceMediaTarget| wire_target(target);
    let mut rest = setup.targets;
    let mut targets: Vec<PipeWireTarget> = Vec::new();
    proof {
        assert(all.take(0).map_values(wire) =~= Seq::empty());
    }
    while rest.len() > 0
        invariant
            rest@.len() <= all.len(),
            rest@ == all.skip(all.len() - rest@.len()),
            wire == (|target: DeviceMediaTarget| wire_target(target)),
            targets@ == all.take(all.len() - rest@.len()).map_values(wire),
        decreases rest@.len(),
    {
        let ghost done = all.len() - rest@.len();
        let target = rest.remove(0);
        proof {
            assert(target == all[done]);
            assert(rest@ =~= all.skip(done + 1));
        }
        targets.push(map_media_target(target));
        proof {
            assert(targets@ =~= all.take(done + 1).map_values(wire));
        }
    }
    proof {
        assert(all.take(all.len() as int) =~= all);
    }
    ConfigureRequest {
        targets,
        configuration: map_configuration(setup.configuration),
        media_generation: setup.media_generation,
    }
}

/// One prepared session at a backend. Each operation is admitted before it is
/// sent, and settled by its reply.
#[derive(Debug)]
pub struct BackendDeviceSession {
    pub media: BackendMediaLifecycle,
}

/// The operation was admitted, or refused in the state that it met.
pub open spec fn admitted(
    before: BackendMediaLifecycle,
    after: BackendMediaLifecycle,
    required: BackendMediaPhase,
    operation: Seq<char>,
    media_generation: NonZeroU64,
    refusal: Option<DeviceSessionError>,
) -> bool {
    if before.is_in(required, media_generation) {
        &&& refusal is None
        &&& after == BackendMediaLifecycle::Uncertain(media_generation)
    } else {
        &&& refusal matches Some(error) && error.0@ == before.refusal(operation, media_generation)
        &&& after == before
    }
}

/// How a stop was asked for, with the reason that a backend is told where there is
/// anything to stop.
pub open spec fn stop_told(
    before: BackendMediaLifecycle,
    after: BackendMediaLifecycle,
    generation: NonZeroU64,
    reason: DeviceMediaStopReason,
    result: Result<Option<StopReason>, DeviceSessionError>,
) -> bool {
    match result {
        Ok(Some(told)) => {
            &&& stopped(before, after, generation, Ok(true))
            &&& told == told_media_stop(reason)
        },
        Ok(None) => stopped(before, after, generation, Ok(false)),
        Err(error) => stopped(before, after, generation, Err(error)),
    }
}

impl BackendDeviceSession {
    pub fn new() -> (session: Self)
        ensures
            session.media == (BackendMediaLifecycle::Prepared { last_completed: None }),
    {
        BackendDeviceSession { media: BackendMediaLifecycle::Prepared { last_completed: None } }
    }

    /// Admit a configuration. `validity` is what the protocol's own validation
    /// says about the request.
    pub fn configure_media(&mut self, request: &ConfigureRequest, validity: Result<(), String>) -> (
    result: Result<(), DeviceSessionError>)
        ensures
            configured(
                old(self).media,
                final(self).media,
                validity,
                request.media_generation,
                result,
            ),
    {
        self.media.begin_configure_media(validity, request.media_generation)
    }

    /// Admit a start: the generation must be configured.
    pub fn start_media(&mut self, media_generation: NonZeroU64) -> (result: Result<
        (),
        DeviceSessionError,
    >)
        ensures
            admitted(
                old(self).media,
                final(self).media,
                BackendMediaPhase::Configured,
                "start"@,
                media_generation,
                result.err(),
            ),
    {
        self.media.begin_transition(media_generation, BackendMediaPhase::Configured, "start")
    }

    /// Admit a suspension: the generation must be streaming.
    pub fn suspend_media(
        &mut self,
        media_generation: NonZeroU64,
        reason: DeviceMediaSuspendReason,
    ) -> (result: Result<SuspendReason, DeviceSessionError>)
        ensures
            admitted(
                old(self).media,
                final(self).media,
                BackendMediaPhase::Streaming,
                "suspend"@,
                media_generation,
                result.err(),
            ),
            result matches Ok(told) ==> told == told_suspension(reason),
    {
        match self.media.begin_transition(
            media_generation,
            BackendMediaPhase::Streaming,
            "suspend",
        ) {
            Ok(()) => Ok(map_suspend_reason(reason)),
            Err(error) => Err(error),
        }
    }

    /// Admit a resumption: the generation must be suspended.
    pub fn resume_media(&mut self, media_generation: NonZeroU64) -> (result: Result<
        (),
        DeviceSessionError,
    >)
        ensures
            admitted(
                old(self).media,
                final(self).media,
                BackendMediaPhase::Suspended,
                "resume"@,
                media_generation,
                result.err(),
            ),
    {
        self.media.begin_transition(media_generation, BackendMediaPhase::Suspended, "resume")
    }

    /// Admit a stop: the reason to send, or none if there is nothing to stop.
    pub fn stop_media(&mut self, media_generation: NonZeroU64, reason: DeviceMediaStopReason) -> (
    result: Result<Option<StopReason>, DeviceSessionError>)
        ensures
            stop_told(old(self).media, final(self).media, media_generation, reason, result),
    {
        match self.media.begin_stop(media_generation) {
            Err(error) => Err(error),
            Ok(false) => Ok(None),
            Ok(true) => Ok(Some(map_media_stop_reason(reason))),
        }
    }

    /// The reason to send with the end of the whole session.
    pub fn stop(self, reason: DeviceSessionStopReason) -> (told: StopReason)
        ensures
            told == told_session_stop(reason),
    {
        map_session_stop_reason(reason)
    }
}

/// After an operation whose outcome is unknown, the matching stop is the only
/// operation that is let through.
pub proof fn uncertainty_admits_only_cleanup(
    generation: NonZeroU64,
    other: NonZeroU64,
    phase: BackendMediaPhase,
)
    ensures
        ({
            let state = BackendMediaLifecycle::Uncertain(generation);
            &&& !state.admits_configuration(other)
            &&& !state.is_in(phase, other)
            &&& (state.active() == Some(other) <==> other == generation)
            &&& !state.consumes_stop(other)
        }),
{
}

/// A generation that has been completed cannot be configured again, nor can
/// any before it.
pub proof fn completed_generations_stay_completed(completed: NonZeroU64, generation: NonZeroU64)
    requires
        generation@ <= completed@,
    ensures
        !(BackendMediaLifecycle::Prepared { last_completed: Some(completed) })
            .admits_configuration(generation),
{
}

/// Media are configured only while none are, for a generation after every one that
/// was completed; nothing but the outcome of that is then known. What is refused
/// changes nothing.
pub proof fn configurations_are_for_new_generations(
    before: BackendMediaLifecycle,
    after: BackendMediaLifecycle,
    validity: Result<(), String>,
    generation: NonZeroU64,
    result: Result<(), DeviceSessionError>,
)
    requires
        configured(before, after, validity, generation, result),
    ensures
        result is Ok ==> before is Prepared && validity is Ok,
        result is Ok && before->last_completed is Some ==> before->last_completed->0@
            < generation@,
        validity is Ok && before == (BackendMediaLifecycle::Prepared { last_completed: None })
            ==> result is Ok,
        validity is Ok && before is Prepared && before->last_completed is Some
            && before->last_completed->0@ < generation@ ==> result is Ok,
        result is Ok ==> after is Uncertain && after->Uncertain_0 == generation,
        result is Err ==> after == before,
        validity is Err ==> result->Err_0.0@.skip(
            result->Err_0.0@.len() - validity->Err_0@.len(),
        ) == validity->Err_0@,
{
    if validity is Err {
        let text = result->Err_0.0@;
        assert(text.skip(text.len() - validity->Err_0@.len()) =~= validity->Err_0@);
    }
}

/// A stop is for the media that there are. With none, it completes its generation,
/// unless a later one was completed before; with others, it is refused.
pub proof fn stops_are_for_the_media_that_there_are(
    before: BackendMediaLifecycle,
    after: BackendMediaLifecycle,
    generation: NonZeroU64,
    result: Result<bool, DeviceSessionError>,
)
    requires
        stopped(before, after, generation, result),
    ensures
        before == BackendMediaLifecycle::Configured(generation) || before
            == BackendMediaLifecycle::Streaming(generation) || before
            == BackendMediaLifecycle::Suspended(generation) || before
            == BackendMediaLifecycle::Uncertain(generation) <==> result == Ok::<
            bool,
            DeviceSessionError,
        >(true),
        result == Ok::<bool, DeviceSessionError>(true) ==> after
            == BackendMediaLifecycle::Uncertain(generation),
        result == Ok::<bool, DeviceSessionError>(false) <==> before is Prepared && (
        before->last_completed is None || before->last_completed->0@ <= generation@),
        result == Ok::<bool, DeviceSessionError>(false) ==> after is Prepared
            && after->last_completed == Some(generation),
        result is Err ==> after == before,
{
}

/// An operation on running media needs them in one phase and in the generation that
/// it names: a start needs them configured, a suspension streaming, a resumption
/// suspended. Its outcome is then open.
pub proof fn operations_need_their_phase(
    before: BackendMediaLifecycle,
    after: BackendMediaLifecycle,
    required: BackendMediaPhase,
    operation: Seq<char>,
    generation: NonZeroU64,
    refusal: Option<DeviceSessionError>,
)
    requires
        admitted(before, after, required, operation, generation, refusal),
    ensures
        refusal is None && required is Configured ==> before is Configured && before->Configured_0
            == generation,
        refusal is None && required is Streaming ==> before is Streaming && before->Streaming_0
            == generation,
        refusal is None && required is Suspended ==> before is Suspended && before->Suspended_0
            == generation,
        required is Configured && before == BackendMediaLifecycle::Configured(generation)
            ==> refusal is None,
        required is Streaming && before == BackendMediaLifecycle::Streaming(generation)
            ==> refusal is None,
        required is Suspended && before == BackendMediaLifecycle::Suspended(generation)
            ==> refusal is None,
        refusal is None ==> after is Uncertain && after->Uncertain_0 == generation,
        refusal is Some ==> after == before,
{
}

/// A reply settles an open operation: success reaches what was asked for, and a
/// failure leaves the outcome open and is passed on.
pub proof fn replies_settle_open_operations(
    state: BackendMediaLifecycle,
    reached: BackendMediaLifecycle,
    reply: Result<(), String>,
)
    ensures
        reply is Ok <==> after_reply(state, reached, reply).1 is Ok,
        reply is Ok ==> after_reply(state, reached, reply).0 == reached,
        reply is Err ==> after_reply(state, reached, reply).0 == state,
        reply is Err ==> after_reply(state, reached, reply).1->Err_0.0 == reply->Err_0,
{
}

/// The reasons of suspensions and of stops are told as they are; the disabling of
/// an output and a change of its mode are both the user's wish.
pub proof fn reasons_are_told_as_they_are(
    suspended: DeviceMediaSuspendReason,
    media: DeviceMediaStopReason,
    session: DeviceSessionStopReason,
)
    ensures
        told_suspension(suspended) is OutputDisabled <==> suspended is OutputDisabled,
        told_suspension(suspended) is ModeChange <==> suspended is ModeChanged,
        told_suspension(suspended) is DeviceUnavailable <==> suspended is DeviceUnavailable,
        told_suspension(suspended) is SessionInactive <==> suspended is SessionInactive,
        told_media_stop(media) is UserRequest <==> media is OutputDisabled || media is ModeChanged,
        told_media_stop(media) is DisplayRemoved <==> media is DisplayRemoved,
        told_media_stop(media) is BackendShutdown <==> media is BackendShutdown,
        told_media_stop(media) is TransportFailure <==> media is TransportFailure,
        told_session_stop(session) is DisplayRemoved <==> session is DisplayRemoved,
        told_session_stop(session) is BackendShutdown <==> session is DaemonShutdown,
{
}

/// A stop tells a reason exactly where there is something to stop, and it is the
/// reason that was given.
pub proof fn stops_tell_their_reason(
    before: BackendMediaLifecycle,
    after: BackendMediaLifecycle,
    generation: NonZeroU64,
    reason: DeviceMediaStopReason,
    result: Result<Option<StopReason>, DeviceSessionError>,
)
    requires
        stop_told(before, after, generation, reason, result),
    ensures
        result is Ok && result->Ok_0 is Some <==> before.active() == Some(generation),
        result is Ok && result->Ok_0 is Some && reason is DisplayRemoved ==> result->Ok_0->0
            is DisplayRemoved,
        result is Ok && result->Ok_0 is Some && reason is BackendShutdown ==> result->Ok_0->0
            is BackendShutdown,
        result is Ok && result->Ok_0 is Some && reason is TransportFailure ==> result->Ok_0->0
            is TransportFailure,
        result is Ok && result->Ok_0 is Some && (reason is OutputDisabled || reason is ModeChanged)
            ==> result->Ok_0->0 is UserRequest,
        result is Ok && result->Ok_0 is None ==> before is Prepared && after
            == (BackendMediaLifecycle::Prepared { last_completed: Some(generation) }),
        result is Err ==> after == before,
{
}

/// A backend is asked for each target of a setup, in order and with all that is
/// known of it, in the configuration and the generation of the setup.
pub proof fn requests_hold_the_whole_setup(
    setup: DeviceMediaSetup,
    request: ConfigureRequest,
    i: int,
)
    requires
        requests(setup, request),
        0 <= i < setup.targets@.len(),
    ensures
        request.media_generation == setup.media_generation,
        request.configuration.video_profile_id == setup.configuration.video_profile_id,
        request.configuration.audio_profile_id == setup.configuration.audio_profile_id,
        request.configuration.mode.width == setup.configuration.mode.width,
        request.configuration.mode.height == setup.configuration.mode.height,
        request.configuration.mode.refresh_millihz == setup.configuration.mode.refresh_millihz,
        request.configuration.mode.flags == 0,
        request.configuration.video_bitrate == setup.configuration.video_bitrate@,
        request.targets@.len() == setup.targets@.len(),
        request.targets@[i].kind == setup.targets@[i].kind,
        request.targets@[i].node_name == setup.targets@[i].node_name,
        request.targets@[i].object_serial == setup.targets@[i].object_serial@,
        request.targets@[i].session_id == setup.targets@[i].session_id,
        request.targets@[i].device_instance == setup.targets@[i].device_instance,
        request.targets@[i].connector_id == setup.targets@[i].connector_id@,
        request.targets@[i].output_index == setup.targets@[i].output_index,
        request.targets@[i].media_generation == setup.targets@[i].media_generation@,
        request.targets@[i].render_device == setup.targets@[i].render_device,
        request.targets@[i].caps == setup.targets@[i].caps,
{
}

/// An event of a session is one of its own generation, and ends in what the backend
/// said of it.
pub proof fn session_events_keep_what_was_said(
    event: BackendSessionEvent,
    generation: NonZeroU64,
    said: String,
)
    ensures
        event == (BackendSessionEvent::Disconnected {
            session_generation: generation,
            error_text: said,
        }) || event == (BackendSessionEvent::FatalError {
            session_generation: generation,
            error_text: said,
        }) || event == (BackendSessionEvent::MonitorFailed {
            session_generation: generation,
            error_text: said,
        }) ==> {
            let (told, text) = session_event(event);
            told == generation && text.skip(text.len() - said@.len()) == said@
        },
        event == (BackendSessionEvent::ConnectionClosed { session_generation: generation }) ==> {
            let (told, text) = session_event(event);
            told == generation
        },
{
    let (told, text) = session_event(event);
    if event is ConnectionClosed {
    } else if text.len() >= said@.len() {
        let from = text.len() - said@.len();
        if event == (BackendSessionEvent::Disconnected {
            session_generation: generation,
            error_text: said,
        }) || event == (BackendSessionEvent::FatalError {
            session_generation: generation,
            error_text: said,
        }) || event == (BackendSessionEvent::MonitorFailed {
            session_generation: generation,
            error_text: said,
        }) {
            assert(text.skip(from) =~= said@);
        }
    }
}

/// The description of media begins with the state that they are in.
pub proof fn media_are_described_by_their_state(value: BackendMediaLifecycle)
    ensures
        value is Configured ==> "configured generation "@.is_prefix_of(value.described()),
        value is Streaming ==> "streaming generation "@.is_prefix_of(value.described()),
        value is Suspended ==> "suspended generation "@.is_prefix_of(value.described()),
        value is Uncertain ==> "uncertain generation "@.is_prefix_of(value.described()),
{
    let text = value.described();
    if value is Configured {
        assert("configured generation "@ =~= text.subrange(
            0,
            "configured generation "@.len() as int,
        ));
    }
    if value is Streaming {
        assert("streaming generation "@ =~= text.subrange(
            0,
            "streaming generation "@.len() as int,
        ));
    }
    if value is Suspended {
        assert("suspended generation "@ =~= text.subrange(
            0,
            "suspended generation "@.len() as int,
        ));
    }
    if value is Uncertain {
        assert("uncertain generation "@ =~= text.subrange(
            0,
            "uncertain generation "@.len() as int,
        ));
    }
}

/// The text of a refused operation names the operation, the generation that it was for, and the
/// state of the media.
pub proof fn refusals_name_the_generation(
    state: BackendMediaLifecycle,
    operation: Seq<char>,
    generation: NonZeroU64,
)
    ensures
        ({
            let text = state.refusal(operation, generation);
            let number = decimal(generation@ as nat);
            let there = state.described();
            &&& text.subrange(7, 7 + operation.len() as int) == operation
            &&& text.subrange(
                25 + operation.len() as int,
                25 + operation.len() as int + number.len() as int,
            ) == number
            &&& text.skip(text.len() - there.len()) == there
        }),
        state is Configured ==> state.described().skip(22) == decimal(state->Configured_0@ as nat),
        state is Streaming ==> state.described().skip(21) == decimal(state->Streaming_0@ as nat),
        state is Suspended ==> state.described().skip(21) == decimal(state->Suspended_0@ as nat),
        state is Uncertain ==> state.described().skip(21) == decimal(state->Uncertain_0@ as nat),
{
    reveal_strlit("cannot ");
    reveal_strlit(" media generation ");
    reveal_strlit("configured generation ");
    reveal_strlit("streaming generation ");
    reveal_strlit("suspended generation ");
    reveal_strlit("uncertain generation ");
    let text = state.refusal(operation, generation);
    let number = decimal(generation@ as nat);
    let there = state.described();
    assert(text.subrange(7, 7 + operation.len() as int) =~= operation);
    assert(text.subrange(
        25 + operation.len() as int,
        25 + operation.len() as int + number.len() as int,
    ) =~= number);
    assert(text.skip(text.len() - there.len()) =~= there);
    match state {
        BackendMediaLifecycle::Configured(held) => {
            assert(there.skip(22) =~= decimal(held@ as nat));
        },
        BackendMediaLifecycle::Streaming(held) => {
            assert(there.skip(21) =~= decimal(held@ as nat));
        },
        BackendMediaLifecycle::Suspended(held) => {
            assert(there.skip(21) =~= decimal(held@ as nat));
        },
        BackendMediaLifecycle::Uncertain(held) => {
            assert(there.skip(21) =~= decimal(held@ as nat));
        },
        _ => {},
    }
}

} // verus!
