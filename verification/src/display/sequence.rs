//! The sequence of one display setup.
//!
//! A setup goes from a reserved output to an open capture pipeline, one
//! outside operation after the other, and can be cancelled on the way. What
//! was made so far is taken down again before a failure is reported.

use crate::capture_output_layouts::{OutputLayouts, ProbeError, RawVideoLayout};
use crate::device_session::DisplayMode;
use crate::display::session_factory::SessionFactory;
use crate::display::setup::{
    copied, offer_for_kernel_session, offered_layouts, with_offered_layouts, BackendSessionError, DisplaySetupError,
    OfferView, PreparationRequest, PrepareCastDeviceError,
};
use crate::display::{
    id_text, segment_text, AddedCastDisplay, CastDisplayId, DisplaySetupStage, MediaRuntime,
    INITIAL_SESSION_GENERATION, VIDEO_FRAME_RATE_NUMERATOR,
};
use crate::display_media::{
    create_pipeline, plans, CaptureSource, DisplayMediaConfig, PipelinePlan,
};
use crate::kernel_display::{
    AttachError, EdidMode, KernelDisplayConfig, DEFAULT_TOPOLOGY_POLL_INTERVAL_NS,
};
use crate::kernel_session::KernelSessionError;
use crate::manager::{ReserveDisplaySlotError, ResolveDeviceError};
use crate::nonzero::{NonZeroU32, NonZeroU64};
use crate::output::CastKmsOutput;
use crate::preparation::PreparedCastDevice;
use crate::protocol::DeviceInfo;
use crate::text::concat;
use vstd::prelude::*;

verus! {

/// Displays carry no audio.
pub const KERNEL_AUDIO_ENABLED: bool = false;

/// The bitrate of a display's video, in bits per second.
pub const VIDEO_BITRATE: u64 = 8_000_000;

/// A device with the output that is reserved for it, and what it is offered.
#[derive(Debug)]
pub struct ReservedSetup {
    pub device: DeviceInfo,
    pub output: CastKmsOutput,
    pub offer: PreparationRequest,
}

/// What a device's capabilities come to: its identity, its first video
/// profile, and the modes of its monitor.
#[derive(Debug)]
pub struct AcceptedCapabilities {
    pub prepared: PreparedCastDevice,
    pub video_profile_id: String,
    pub raw_layouts: Vec<RawVideoLayout>,
    pub modes: Vec<EdidMode>,
}

/// A device whose backend session is prepared.
#[derive(Debug)]
pub struct BackendReadySetup {
    pub reserved: ReservedSetup,
    pub prepared: PreparedCastDevice,
    pub video_profile_id: String,
    pub raw_layout: RawVideoLayout,
    pub modes: Vec<EdidMode>,
}

/// What a setup waits for, and what it has by then.
#[derive(Debug)]
pub enum SetupPhase {
    Reserving { offer: PreparationRequest },
    Acquiring(ReservedSetup),
    Probing(ReservedSetup),
    RevalidatingReserved(ReservedSetup),
    CreatingSession(ReservedSetup),
    Preparing(ReservedSetup),
    Accepting(ReservedSetup),
    SelectingLayout(ReservedSetup, AcceptedCapabilities),
    RevalidatingPrepared(BackendReadySetup),
    StartingMonitor(BackendReadySetup),
    Attaching(BackendReadySetup),
    TakingAccess(BackendReadySetup),
    FindingSockets(BackendReadySetup),
    OpeningPipeline(BackendReadySetup),
}

/// What a setup is given.
#[derive(Debug)]
pub struct SetupContext {
    pub display_id: CastDisplayId,
    pub media_runtime: MediaRuntime,
    pub audio_enabled: bool,
}

/// One setup under way.
#[derive(Debug)]
pub struct DisplaySetup {
    pub context: SetupContext,
    pub phase: SetupPhase,
}

/// The next outside operation of a setup.
#[derive(Debug)]
pub enum SetupAction {
    Reserve,
    AcquireKernelSession { output: CastKmsOutput, audio_enabled: bool },
    ProbeLayouts { render_node: String, modes: Vec<DisplayMode> },
    Revalidate,
    CreateSession { session_id: String, session_generation: u64, requested_features: u64 },
    Prepare { offer: PreparationRequest },
    AcceptCapabilities { device: DeviceInfo, audio_enabled: bool },
    SelectLayout { offered: Vec<RawVideoLayout>, supported: Vec<RawVideoLayout> },
    StartMonitor,
    Attach { config: KernelDisplayConfig },
    TakeMediaAccess { source: CaptureSource },
    FindSockets { directory: String, server_uid: u32 },
    /// Open the pipeline for images of the selected layout.
    OpenPipeline { plan: PipelinePlan, raw_layout: RawVideoLayout },
}

/// The answer to an outside operation.
#[derive(Debug)]
pub enum SetupReply {
    /// The setup was cancelled before there was an answer.
    Interrupted,
    Reserved(Result<(DeviceInfo, CastKmsOutput), ReserveDisplaySlotError>),
    /// The render node of the session's renderer, if it has one.
    KernelSession(Result<Option<String>, KernelSessionError>),
    Probed(Result<OutputLayouts, ProbeError>),
    Revalidated(Result<(), ResolveDeviceError>),
    SessionCreated(Result<(), BackendSessionError>),
    Prepared(Result<(), BackendSessionError>),
    Accepted(Result<AcceptedCapabilities, PrepareCastDeviceError>),
    LayoutSelected(Result<RawVideoLayout, String>),
    MonitorStarted(Result<(), BackendSessionError>),
    Attached(Result<(), AttachError>),
    AccessTaken(Result<(), String>),
    SocketsFound(Result<(), String>),
    PipelineOpened(Result<(), String>),
}

/// What has to be taken down after a failure.
#[derive(Debug, Clone, Copy, PartialEq, Eq, Structural)]
pub enum SetupCleanup {
    /// Wait for the session that is being created, and stop it if it is made.
    StopPendingSession,
    StopBackend,
    /// Release the media authority and detach the monitor.
    CleanUpAttached,
    /// Detach the monitor; there is no media authority.
    DetachKernel,
}

/// A setup that failed, and what has to be taken down, in order.
#[derive(Debug, PartialEq, Eq)]
pub struct SetupFailure {
    pub error: DisplaySetupError,
    pub cleanup: Vec<SetupCleanup>,
}

/// What a setup hands over.
#[derive(Debug)]
pub struct SetupOutput {
    pub display: AddedCastDisplay,
    pub output: CastKmsOutput,
    pub prepared: PreparedCastDevice,
    pub initial_session_generation: NonZeroU64,
    pub recovery_factory: SessionFactory,
}

/// How a setup goes on.
#[derive(Debug)]
pub enum SetupProgress {
    Next { setup: DisplaySetup, action: SetupAction, shown: Option<DisplaySetupStage> },
    Added(SetupOutput),
    Failed(SetupFailure),
}

impl SetupPhase {
    /// The reserved output, from the reservation on.
    pub open spec fn reserved(self) -> Option<ReservedSetup> {
        match self {
            SetupPhase::Reserving { .. } => None,
            SetupPhase::Acquiring(reserved) => Some(reserved),
            SetupPhase::Probing(reserved) => Some(reserved),
            SetupPhase::RevalidatingReserved(reserved) => Some(reserved),
            SetupPhase::CreatingSession(reserved) => Some(reserved),
            SetupPhase::Preparing(reserved) => Some(reserved),
            SetupPhase::Accepting(reserved) => Some(reserved),
            SetupPhase::SelectingLayout(reserved, _) => Some(reserved),
            SetupPhase::RevalidatingPrepared(ready) => Some(ready.reserved),
            SetupPhase::StartingMonitor(ready) => Some(ready.reserved),
            SetupPhase::Attaching(ready) => Some(ready.reserved),
            SetupPhase::TakingAccess(ready) => Some(ready.reserved),
            SetupPhase::FindingSockets(ready) => Some(ready.reserved),
            SetupPhase::OpeningPipeline(ready) => Some(ready.reserved),
        }
    }

    /// Reserved outputs have a connector.
    pub open spec fn wf(self) -> bool {
        self.reserved() matches Some(reserved) ==> reserved.output.connector_id != 0
    }

    /// The reply answers what the phase waits for.
    pub open spec fn awaits(self, reply: SetupReply) -> bool {
        match self {
            SetupPhase::Reserving { .. } => reply is Interrupted || match reply {
                SetupReply::Reserved(Ok((_, output))) => output.connector_id != 0,
                SetupReply::Reserved(Err(_)) => true,
                _ => false,
            },
            SetupPhase::Acquiring(_) => reply is KernelSession,
            SetupPhase::Probing(_) => reply is Interrupted || reply is Probed,
            SetupPhase::RevalidatingReserved(_) => reply is Interrupted || reply is Revalidated,
            SetupPhase::CreatingSession(_) => reply is Interrupted || reply is SessionCreated,
            SetupPhase::Preparing(_) => reply is Interrupted || reply is Prepared,
            SetupPhase::Accepting(_) => reply is Accepted,
            SetupPhase::SelectingLayout(..) => reply is LayoutSelected,
            SetupPhase::RevalidatingPrepared(_) => reply is Interrupted || reply is Revalidated,
            SetupPhase::StartingMonitor(_) => reply is Interrupted || reply is MonitorStarted,
            SetupPhase::Attaching(_) => reply is Attached,
            SetupPhase::TakingAccess(_) => reply is AccessTaken,
            SetupPhase::FindingSockets(_) => reply is SocketsFound,
            SetupPhase::OpeningPipeline(_) => reply is PipelineOpened,
        }
    }
}

/// The setup failed with this error, and this is to be taken down.
pub open spec fn fails(
    progress: SetupProgress,
    error: DisplaySetupError,
    cleanup: Seq<SetupCleanup>,
) -> bool {
    progress matches SetupProgress::Failed(failure) && failure.error == error
        && failure.cleanup@ == cleanup
}

/// The setup failed in a step that has only a text.
pub open spec fn fails_with_text(
    progress: SetupProgress,
    text: Seq<char>,
    cleanup: Seq<SetupCleanup>,
) -> bool {
    progress matches SetupProgress::Failed(failure) && (failure.error matches
        DisplaySetupError::Monitor(told) && told@ == text) && failure.cleanup@ == cleanup
}

/// The setup goes on in this phase, showing this stage.
pub open spec fn goes_on(
    before: DisplaySetup,
    progress: SetupProgress,
    phase: SetupPhase,
    shown: Option<DisplaySetupStage>,
) -> bool {
    progress matches SetupProgress::Next { setup, shown: told, .. } && setup == (DisplaySetup {
        phase,
        ..before
    }) && told == shown
}

/// The action of a setup that goes on.
pub open spec fn action_of(progress: SetupProgress) -> SetupAction {
    progress->Next_action
}

/// The offer of a display's kernel session: no audio, no features.
pub open spec fn silent(offer: OfferView) -> OfferView {
    OfferView { audio_profiles: Seq::empty(), requested_features: 0, ..offer }
}

/// An output was asked for.
pub open spec fn reserving_reacts(
    before: DisplaySetup,
    offer: PreparationRequest,
    reply: SetupReply,
    cancelled: bool,
    progress: SetupProgress,
) -> bool {
    if cancelled {
        fails(progress, DisplaySetupError::Cancelled, Seq::empty())
    } else {
        match reply {
            SetupReply::Reserved(Ok((device, output))) => {
                &&& goes_on(
                    before,
                    progress,
                    SetupPhase::Acquiring(ReservedSetup { device, output, offer }),
                    Some(DisplaySetupStage::Authorizing),
                )
                &&& action_of(progress) == (SetupAction::AcquireKernelSession {
                    output,
                    audio_enabled: before.context.audio_enabled,
                })
            },
            SetupReply::Reserved(Err(error)) => fails(
                progress,
                DisplaySetupError::Reserve(error),
                Seq::empty(),
            ),
            _ => fails(progress, DisplaySetupError::Cancelled, Seq::empty()),
        }
    }
}

/// A kernel session was asked for. A renderer that has a node is probed.
pub open spec fn acquiring_reacts(
    before: DisplaySetup,
    reserved: ReservedSetup,
    reply: SetupReply,
    cancelled: bool,
    progress: SetupProgress,
) -> bool {
    let source = before.context.media_runtime.capture_source;
    match reply {
        SetupReply::KernelSession(Ok(render_node)) => {
            if source == CaptureSource::Renderer && render_node is Some {
                &&& progress matches SetupProgress::Next {
                    setup: DisplaySetup { phase: SetupPhase::Probing(probing), .. },
                    action: SetupAction::ProbeLayouts { render_node: node, modes },
                    ..
                }
                &&& goes_on(before, progress, SetupPhase::Probing(probing), None)
                &&& probing.device == reserved.device && probing.output == reserved.output
                &&& probing.offer@ == silent(reserved.offer@)
                &&& Some(node) == render_node
                &&& modes@ == reserved.offer@.candidate_modes
            } else if cancelled {
                fails(progress, DisplaySetupError::Cancelled, Seq::empty())
            } else {
                &&& progress matches SetupProgress::Next {
                    setup: DisplaySetup { phase: SetupPhase::RevalidatingReserved(ready), .. },
                    action: SetupAction::Revalidate,
                    ..
                }
                &&& goes_on(before, progress, SetupPhase::RevalidatingReserved(ready), None)
                &&& ready.device == reserved.device && ready.output == reserved.output
                &&& ready.offer@ == with_offered_layouts(source, None, silent(reserved.offer@))
            }
        },
        SetupReply::KernelSession(Err(KernelSessionError::Cancelled)) => fails(
            progress,
            DisplaySetupError::Cancelled,
            Seq::empty(),
        ),
        SetupReply::KernelSession(Err(error)) => fails(
            progress,
            DisplaySetupError::KernelSession(error),
            Seq::empty(),
        ),
        _ => true,
    }
}

/// The renderer was probed. One that cannot be asked leaves system memory.
pub open spec fn probing_reacts(
    before: DisplaySetup,
    reserved: ReservedSetup,
    reply: SetupReply,
    cancelled: bool,
    progress: SetupProgress,
) -> bool {
    if cancelled {
        fails(progress, DisplaySetupError::Cancelled, Seq::empty())
    } else {
        match reply {
            SetupReply::Probed(found) => {
                &&& progress matches SetupProgress::Next {
                    setup: DisplaySetup { phase: SetupPhase::RevalidatingReserved(ready), .. },
                    action: SetupAction::Revalidate,
                    ..
                }
                &&& goes_on(before, progress, SetupPhase::RevalidatingReserved(ready), None)
                &&& ready.device == reserved.device && ready.output == reserved.output
                &&& ready.offer@ == with_offered_layouts(
                    CaptureSource::Renderer,
                    Some(found),
                    reserved.offer@,
                )
            },
            _ => fails(progress, DisplaySetupError::Cancelled, Seq::empty()),
        }
    }
}

/// The device was looked at once more, before a session is created for it.
pub open spec fn revalidating_reserved_reacts(
    before: DisplaySetup,
    reserved: ReservedSetup,
    reply: SetupReply,
    cancelled: bool,
    progress: SetupProgress,
) -> bool {
    if cancelled {
        fails(progress, DisplaySetupError::Cancelled, Seq::empty())
    } else {
        match reply {
            SetupReply::Revalidated(Ok(_)) => {
                &&& goes_on(
                    before,
                    progress,
                    SetupPhase::CreatingSession(reserved),
                    Some(DisplaySetupStage::PreparingDevice),
                )
                &&& action_of(progress) matches SetupAction::CreateSession {
                    session_id,
                    session_generation,
                    requested_features,
                }
                &&& session_id@ == id_text(before.context.display_id@)
                &&& session_generation == INITIAL_SESSION_GENERATION
                &&& requested_features == reserved.offer.requested_features
            },
            SetupReply::Revalidated(Err(error)) => fails(
                progress,
                DisplaySetupError::Device(error),
                Seq::empty(),
            ),
            _ => fails(progress, DisplaySetupError::Cancelled, Seq::empty()),
        }
    }
}

/// A backend session was asked for.
pub open spec fn creating_session_reacts(
    before: DisplaySetup,
    reserved: ReservedSetup,
    reply: SetupReply,
    cancelled: bool,
    progress: SetupProgress,
) -> bool {
    if cancelled {
        fails(progress, DisplaySetupError::Cancelled, seq![SetupCleanup::StopPendingSession])
    } else {
        match reply {
            SetupReply::SessionCreated(Ok(_)) => {
                &&& goes_on(before, progress, SetupPhase::Preparing(reserved), None)
                &&& action_of(progress) matches SetupAction::Prepare { offer }
                &&& offer@ == reserved.offer@
            },
            SetupReply::SessionCreated(Err(error)) => fails(
                progress,
                DisplaySetupError::Backend(error),
                Seq::empty(),
            ),
            _ => fails(
                progress,
                DisplaySetupError::Cancelled,
                seq![SetupCleanup::StopPendingSession],
            ),
        }
    }
}

/// The device was asked to prepare.
pub open spec fn preparing_reacts(
    before: DisplaySetup,
    reserved: ReservedSetup,
    reply: SetupReply,
    cancelled: bool,
    progress: SetupProgress,
) -> bool {
    if cancelled {
        fails(progress, DisplaySetupError::Cancelled, seq![SetupCleanup::StopBackend])
    } else {
        match reply {
            SetupReply::Prepared(Ok(_)) => {
                &&& goes_on(before, progress, SetupPhase::Accepting(reserved), None)
                &&& action_of(progress) matches SetupAction::AcceptCapabilities {
                    device,
                    audio_enabled,
                }
                &&& device@ == reserved.device@
                &&& audio_enabled == KERNEL_AUDIO_ENABLED
            },
            SetupReply::Prepared(Err(error)) => fails(
                progress,
                DisplaySetupError::Backend(error),
                seq![SetupCleanup::StopBackend],
            ),
            _ => fails(progress, DisplaySetupError::Cancelled, seq![SetupCleanup::StopBackend]),
        }
    }
}

/// The capabilities of the device were judged.
pub open spec fn accepting_reacts(
    before: DisplaySetup,
    reserved: ReservedSetup,
    reply: SetupReply,
    cancelled: bool,
    progress: SetupProgress,
) -> bool {
    match reply {
        SetupReply::Accepted(Ok(accepted)) => if cancelled {
            fails(progress, DisplaySetupError::Cancelled, seq![SetupCleanup::StopBackend])
        } else {
            &&& goes_on(before, progress, SetupPhase::SelectingLayout(reserved, accepted), None)
            &&& action_of(progress) matches SetupAction::SelectLayout { offered, supported }
            &&& offered@ == reserved.offer@.raw_layouts
            &&& supported@ == accepted.raw_layouts@
        },
        SetupReply::Accepted(Err(error)) => fails(
            progress,
            DisplaySetupError::Prepare(error),
            seq![SetupCleanup::StopBackend],
        ),
        _ => true,
    }
}

/// A layout was selected among those that are offered and supported.
pub open spec fn selecting_layout_reacts(
    before: DisplaySetup,
    reserved: ReservedSetup,
    accepted: AcceptedCapabilities,
    reply: SetupReply,
    progress: SetupProgress,
) -> bool {
    match reply {
        SetupReply::LayoutSelected(Ok(raw_layout)) => {
            &&& goes_on(
                before,
                progress,
                SetupPhase::RevalidatingPrepared(
                    BackendReadySetup {
                        reserved,
                        prepared: accepted.prepared,
                        video_profile_id: accepted.video_profile_id,
                        raw_layout,
                        modes: accepted.modes,
                    },
                ),
                None,
            )
            &&& action_of(progress) is Revalidate
        },
        SetupReply::LayoutSelected(Err(text)) => fails_with_text(
            progress,
            text@,
            seq![SetupCleanup::StopBackend],
        ),
        _ => true,
    }
}

/// The device was looked at once more, after its preparation.
pub open spec fn revalidating_prepared_reacts(
    before: DisplaySetup,
    ready: BackendReadySetup,
    reply: SetupReply,
    cancelled: bool,
    progress: SetupProgress,
) -> bool {
    if cancelled {
        fails(progress, DisplaySetupError::Cancelled, seq![SetupCleanup::StopBackend])
    } else {
        match reply {
            SetupReply::Revalidated(Ok(_)) => {
                &&& goes_on(before, progress, SetupPhase::StartingMonitor(ready), None)
                &&& action_of(progress) is StartMonitor
            },
            SetupReply::Revalidated(Err(error)) => fails(
                progress,
                DisplaySetupError::Device(error),
                seq![SetupCleanup::StopBackend],
            ),
            _ => fails(progress, DisplaySetupError::Cancelled, seq![SetupCleanup::StopBackend]),
        }
    }
}

/// The events of the backend session are watched. The output that is attached
/// next needs a controller.
pub open spec fn starting_monitor_reacts(
    before: DisplaySetup,
    ready: BackendReadySetup,
    reply: SetupReply,
    cancelled: bool,
    progress: SetupProgress,
) -> bool {
    if cancelled {
        fails(progress, DisplaySetupError::Cancelled, seq![SetupCleanup::StopBackend])
    } else {
        match reply {
            SetupReply::MonitorStarted(Ok(_)) => if ready.reserved.output.crtc_id == 0 {
                fails_with_text(
                    progress,
                    "reserved CastKMS output has a zero CRTC ID"@,
                    seq![SetupCleanup::StopBackend],
                )
            } else {
                &&& goes_on(
                    before,
                    progress,
                    SetupPhase::Attaching(ready),
                    Some(DisplaySetupStage::Attaching),
                )
                &&& action_of(progress) matches SetupAction::Attach { config }
                &&& config.crtc_id@ == ready.reserved.output.crtc_id
                &&& config.modes@ == ready.modes@
                &&& config.poll_interval_ns == DEFAULT_TOPOLOGY_POLL_INTERVAL_NS
            },
            SetupReply::MonitorStarted(Err(error)) => fails(
                progress,
                DisplaySetupError::Backend(error),
                seq![SetupCleanup::StopBackend],
            ),
            _ => fails(progress, DisplaySetupError::Cancelled, seq![SetupCleanup::StopBackend]),
        }
    }
}

/// The monitor was attached.
pub open spec fn attaching_reacts(
    before: DisplaySetup,
    ready: BackendReadySetup,
    reply: SetupReply,
    progress: SetupProgress,
) -> bool {
    match reply {
        SetupReply::Attached(Ok(_)) => {
            &&& goes_on(before, progress, SetupPhase::TakingAccess(ready), None)
            &&& action_of(progress) == (SetupAction::TakeMediaAccess {
                source: before.context.media_runtime.capture_source,
            })
        },
        SetupReply::Attached(Err(AttachError::Cancelled)) => fails(
            progress,
            DisplaySetupError::Cancelled,
            seq![SetupCleanup::StopBackend],
        ),
        SetupReply::Attached(Err(error)) => fails(
            progress,
            DisplaySetupError::KernelAttach(error),
            seq![SetupCleanup::StopBackend],
        ),
        _ => true,
    }
}

/// The media authority of the attached monitor was taken. Without it the
/// monitor goes first.
pub open spec fn taking_access_reacts(
    before: DisplaySetup,
    ready: BackendReadySetup,
    reply: SetupReply,
    cancelled: bool,
    progress: SetupProgress,
) -> bool {
    match reply {
        SetupReply::AccessTaken(Ok(_)) => if cancelled {
            fails(
                progress,
                DisplaySetupError::Cancelled,
                seq![SetupCleanup::StopBackend, SetupCleanup::CleanUpAttached],
            )
        } else {
            &&& goes_on(before, progress, SetupPhase::FindingSockets(ready), None)
            &&& action_of(progress) matches SetupAction::FindSockets { directory, server_uid }
            &&& directory@ == before.context.media_runtime.directory@
            &&& server_uid == before.context.media_runtime.server_uid
        },
        SetupReply::AccessTaken(Err(_)) => fails(
            progress,
            DisplaySetupError::KernelAccess,
            seq![SetupCleanup::DetachKernel, SetupCleanup::StopBackend],
        ),
        _ => true,
    }
}

/// The media configuration of a display.
pub open spec fn configures(
    config: DisplayMediaConfig,
    display_id: Seq<u8>,
    ready: BackendReadySetup,
) -> bool {
    &&& config.connector_id@ == ready.reserved.output.connector_id
    &&& config.output_index == ready.reserved.output.id.output_index
    &&& config.session_id@ == id_text(display_id)
    &&& config.device_instance@ == "cast-display-"@ + segment_text(display_id)
    &&& config.node_description@ == ready.reserved.device.display_name@
    &&& config.video_profile_id@ == ready.video_profile_id@
    &&& config.video_bitrate@ == VIDEO_BITRATE
    &&& config.capture_rate_hz@ == VIDEO_FRAME_RATE_NUMERATOR
}

/// The sockets of the media services were found.
pub open spec fn finding_sockets_reacts(
    before: DisplaySetup,
    ready: BackendReadySetup,
    reply: SetupReply,
    progress: SetupProgress,
) -> bool {
    match reply {
        SetupReply::SocketsFound(Ok(_)) => {
            &&& goes_on(before, progress, SetupPhase::OpeningPipeline(ready), None)
            &&& action_of(progress) matches SetupAction::OpenPipeline { plan, raw_layout }
            &&& raw_layout == ready.raw_layout
            &&& exists|config: DisplayMediaConfig|
                configures(config, before.context.display_id@, ready) && plans(
                    plan,
                    before.context.media_runtime.capture_source,
                    config,
                )
        },
        SetupReply::SocketsFound(Err(text)) => fails_with_text(
            progress,
            "construct classified PipeWire paths: "@ + text@,
            seq![SetupCleanup::StopBackend, SetupCleanup::CleanUpAttached],
        ),
        _ => true,
    }
}

/// The pipeline was opened, which spends the media authority either way.
pub open spec fn opening_pipeline_reacts(
    before: DisplaySetup,
    ready: BackendReadySetup,
    reply: SetupReply,
    progress: SetupProgress,
) -> bool {
    match reply {
        SetupReply::PipelineOpened(Ok(_)) => {
            &&& progress matches SetupProgress::Added(added)
            &&& added.display == (AddedCastDisplay {
                display_id: before.context.display_id,
                state_revision: ready.reserved.device.device_revision,
                device: ready.reserved.device,
            })
            &&& added.output == ready.reserved.output
            &&& added.prepared == ready.prepared
            &&& added.initial_session_generation@ == INITIAL_SESSION_GENERATION
            &&& added.recovery_factory.session_id@ == id_text(before.context.display_id@)
            &&& added.recovery_factory.offer == ready.reserved.offer
            &&& added.recovery_factory.audio_enabled == KERNEL_AUDIO_ENABLED
        },
        SetupReply::PipelineOpened(Err(text)) => fails_with_text(
            progress,
            "open selected capture pipeline: "@ + text@,
            seq![SetupCleanup::StopBackend, SetupCleanup::DetachKernel],
        ),
        _ => true,
    }
}

/// How a setup goes on after an answer. `cancelled` tells whether the setup
/// was cancelled by the time the answer was there.
pub open spec fn setup_reacts(
    before: DisplaySetup,
    reply: SetupReply,
    cancelled: bool,
    progress: SetupProgress,
) -> bool {
    match before.phase {
        SetupPhase::Reserving { offer } => reserving_reacts(
            before,
            offer,
            reply,
            cancelled,
            progress,
        ),
        SetupPhase::Acquiring(reserved) => acquiring_reacts(
            before,
            reserved,
            reply,
            cancelled,
            progress,
        ),
        SetupPhase::Probing(reserved) => probing_reacts(
            before,
            reserved,
            reply,
            cancelled,
            progress,
        ),
        SetupPhase::RevalidatingReserved(reserved) => revalidating_reserved_reacts(
            before,
            reserved,
            reply,
            cancelled,
            progress,
        ),
        SetupPhase::CreatingSession(reserved) => creating_session_reacts(
            before,
            reserved,
            reply,
            cancelled,
            progress,
        ),
        SetupPhase::Preparing(reserved) => preparing_reacts(
            before,
            reserved,
            reply,
            cancelled,
            progress,
        ),
        SetupPhase::Accepting(reserved) => accepting_reacts(
            before,
            reserved,
            reply,
            cancelled,
            progress,
        ),
        SetupPhase::SelectingLayout(reserved, accepted) => selecting_layout_reacts(
            before,
            reserved,
            accepted,
            reply,
            progress,
        ),
        SetupPhase::RevalidatingPrepared(ready) => revalidating_prepared_reacts(
            before,
            ready,
            reply,
            cancelled,
            progress,
        ),
        SetupPhase::StartingMonitor(ready) => starting_monitor_reacts(
            before,
            ready,
            reply,
            cancelled,
            progress,
        ),
        SetupPhase::Attaching(ready) => attaching_reacts(before, ready, reply, progress),
        SetupPhase::TakingAccess(ready) => taking_access_reacts(
            before,
            ready,
            reply,
            cancelled,
            progress,
        ),
        SetupPhase::FindingSockets(ready) => finding_sockets_reacts(
            before,
            ready,
            reply,
            progress,
        ),
        SetupPhase::OpeningPipeline(ready) => opening_pipeline_reacts(
            before,
            ready,
            reply,
            progress,
        ),
    }
}

fn failed(error: DisplaySetupError, cleanup: Vec<SetupCleanup>) -> (progress: SetupProgress)
    ensures
        fails(progress, error, cleanup@),
{
    SetupProgress::Failed(SetupFailure { error, cleanup })
}

fn failed_with(label: &str, text: &str, cleanup: Vec<SetupCleanup>) -> (progress: SetupProgress)
    ensures
        fails_with_text(progress, label@ + text@, cleanup@),
{
    failed(DisplaySetupError::Monitor(concat(label, text)), cleanup)
}

fn stop_backend() -> (cleanup: Vec<SetupCleanup>)
    ensures
        cleanup@ == seq![SetupCleanup::StopBackend],
{
    let cleanup: Vec<SetupCleanup> = vec![SetupCleanup::StopBackend];
    proof {
        assert(cleanup@ =~= seq![SetupCleanup::StopBackend]);
    }
    cleanup
}

fn clean_up_attached() -> (cleanup: Vec<SetupCleanup>)
    ensures
        cleanup@ == seq![SetupCleanup::StopBackend, SetupCleanup::CleanUpAttached],
{
    let cleanup: Vec<SetupCleanup> = vec![SetupCleanup::StopBackend, SetupCleanup::CleanUpAttached];
    proof {
        assert(cleanup@ =~= seq![SetupCleanup::StopBackend, SetupCleanup::CleanUpAttached]);
    }
    cleanup
}

impl SetupContext {
    fn next(self, phase: SetupPhase, action: SetupAction) -> (progress: SetupProgress)
        ensures
            progress == (SetupProgress::Next {
                setup: DisplaySetup { context: self, phase },
                action,
                shown: None,
            }),
    {
        SetupProgress::Next { setup: DisplaySetup { context: self, phase }, action, shown: None }
    }

    fn show(self, phase: SetupPhase, action: SetupAction, stage: DisplaySetupStage) -> (progress:
        SetupProgress)
        ensures
            progress == (SetupProgress::Next {
                setup: DisplaySetup { context: self, phase },
                action,
                shown: Some(stage),
            }),
    {
        SetupProgress::Next {
            setup: DisplaySetup { context: self, phase },
            action,
            shown: Some(stage),
        }
    }

    /// Take a reservation and ask for the kernel session of its output.
    fn reserve(
        self,
        offer: PreparationRequest,
        reply: SetupReply,
        cancelled: bool,
    ) -> (progress: SetupProgress)
        requires
            reply is Interrupted || reply is Reserved,
        ensures
            reserving_reacts(
                (DisplaySetup { context: self, phase: SetupPhase::Reserving { offer } }),
                offer,
                reply,
                cancelled,
                progress,
            ),
    {
        if cancelled {
            return failed(DisplaySetupError::Cancelled, Vec::new());
        }
        match reply {
            SetupReply::Reserved(Ok((device, output))) => {
                let action = SetupAction::AcquireKernelSession {
                    output: output.clone(),
                    audio_enabled: self.audio_enabled,
                };
                self.show(
                    SetupPhase::Acquiring(ReservedSetup { device, output, offer }),
                    action,
                    DisplaySetupStage::Authorizing,
                )
            },
            SetupReply::Reserved(Err(error)) => failed(
                DisplaySetupError::Reserve(error),
                Vec::new(),
            ),
            _ => failed(DisplaySetupError::Cancelled, Vec::new()),
        }
    }

    /// Take the kernel session, and ask its renderer for layouts.
    fn acquire(
        self,
        reserved: ReservedSetup,
        reply: SetupReply,
        cancelled: bool,
    ) -> (progress: SetupProgress)
        ensures
            acquiring_reacts(
                (DisplaySetup { context: self, phase: SetupPhase::Acquiring(reserved) }),
                reserved,
                reply,
                cancelled,
                progress,
            ),
    {
        match reply {
            SetupReply::KernelSession(Ok(render_node)) => {
                let offer = offer_for_kernel_session(reserved.offer);
                let source = self.media_runtime.capture_source;
                match (source, render_node) {
                    (CaptureSource::Renderer, Some(render_node)) => {
                        let modes = copied(&offer.candidate_modes);
                        self.next(
                            SetupPhase::Probing(
                                ReservedSetup {
                                    device: reserved.device,
                                    output: reserved.output,
                                    offer,
                                },
                            ),
                            SetupAction::ProbeLayouts { render_node, modes },
                        )
                    },
                    _ => {
                        if cancelled {
                            return failed(DisplaySetupError::Cancelled, Vec::new());
                        }
                        let ready = ReservedSetup {
                            device: reserved.device,
                            output: reserved.output,
                            offer: offered_layouts(source, None, offer),
                        };
                        self.next(SetupPhase::RevalidatingReserved(ready), SetupAction::Revalidate)
                    },
                }
            },
            SetupReply::KernelSession(Err(KernelSessionError::Cancelled)) => failed(
                DisplaySetupError::Cancelled,
                Vec::new(),
            ),
            SetupReply::KernelSession(Err(error)) => failed(
                DisplaySetupError::KernelSession(error),
                Vec::new(),
            ),
            _ => failed(DisplaySetupError::Cancelled, Vec::new()),
        }
    }

    /// Offer what the renderer can do.
    fn probe(
        self,
        reserved: ReservedSetup,
        reply: SetupReply,
        cancelled: bool,
    ) -> (progress: SetupProgress)
        ensures
            probing_reacts(
                (DisplaySetup { context: self, phase: SetupPhase::Probing(reserved) }),
                reserved,
                reply,
                cancelled,
                progress,
            ),
    {
        if cancelled {
            return failed(DisplaySetupError::Cancelled, Vec::new());
        }
        match reply {
            SetupReply::Probed(found) => {
                let ready = ReservedSetup {
                    device: reserved.device,
                    output: reserved.output,
                    offer: offered_layouts(
                        CaptureSource::Renderer,
                        Some(found),
                        reserved.offer,
                    ),
                };
                self.next(SetupPhase::RevalidatingReserved(ready), SetupAction::Revalidate)
            },
            _ => failed(DisplaySetupError::Cancelled, Vec::new()),
        }
    }

    /// Create a session for the device that is still there.
    fn create_session(
        self,
        reserved: ReservedSetup,
        reply: SetupReply,
        cancelled: bool,
    ) -> (progress: SetupProgress)
        ensures
            revalidating_reserved_reacts(
                (DisplaySetup { context: self, phase: SetupPhase::RevalidatingReserved(reserved) }),
                reserved,
                reply,
                cancelled,
                progress,
            ),
    {
        if cancelled {
            return failed(DisplaySetupError::Cancelled, Vec::new());
        }
        match reply {
            SetupReply::Revalidated(Ok(())) => {
                let action = SetupAction::CreateSession {
                    session_id: self.display_id.to_text(),
                    session_generation: INITIAL_SESSION_GENERATION,
                    requested_features: reserved.offer.requested_features,
                };
                self.show(
                    SetupPhase::CreatingSession(reserved),
                    action,
                    DisplaySetupStage::PreparingDevice,
                )
            },
            SetupReply::Revalidated(Err(error)) => failed(
                DisplaySetupError::Device(error),
                Vec::new(),
            ),
            _ => failed(DisplaySetupError::Cancelled, Vec::new()),
        }
    }

    /// Prepare the session that was created.
    fn prepare(
        self,
        reserved: ReservedSetup,
        reply: SetupReply,
        cancelled: bool,
    ) -> (progress: SetupProgress)
        ensures
            creating_session_reacts(
                (DisplaySetup { context: self, phase: SetupPhase::CreatingSession(reserved) }),
                reserved,
                reply,
                cancelled,
                progress,
            ),
    {
        let pending: Vec<SetupCleanup> = vec![SetupCleanup::StopPendingSession];
        proof {
            assert(pending@ =~= seq![SetupCleanup::StopPendingSession]);
        }
        if cancelled {
            return failed(DisplaySetupError::Cancelled, pending);
        }
        match reply {
            SetupReply::SessionCreated(Ok(())) => {
                let action = SetupAction::Prepare { offer: reserved.offer.clone() };
                self.next(SetupPhase::Preparing(reserved), action)
            },
            SetupReply::SessionCreated(Err(error)) => failed(
                DisplaySetupError::Backend(error),
                Vec::new(),
            ),
            _ => failed(DisplaySetupError::Cancelled, pending),
        }
    }

    /// Judge the capabilities of the prepared device.
    fn judge(
        self,
        reserved: ReservedSetup,
        reply: SetupReply,
        cancelled: bool,
    ) -> (progress: SetupProgress)
        ensures
            preparing_reacts(
                (DisplaySetup { context: self, phase: SetupPhase::Preparing(reserved) }),
                reserved,
                reply,
                cancelled,
                progress,
            ),
    {
        if cancelled {
            return failed(DisplaySetupError::Cancelled, stop_backend());
        }
        match reply {
            SetupReply::Prepared(Ok(())) => {
                let action = SetupAction::AcceptCapabilities {
                    device: reserved.device.clone(),
                    audio_enabled: KERNEL_AUDIO_ENABLED,
                };
                self.next(SetupPhase::Accepting(reserved), action)
            },
            SetupReply::Prepared(Err(error)) => failed(
                DisplaySetupError::Backend(error),
                stop_backend(),
            ),
            _ => failed(DisplaySetupError::Cancelled, stop_backend()),
        }
    }

    /// Select a layout for the accepted device.
    fn select_layout(
        self,
        reserved: ReservedSetup,
        reply: SetupReply,
        cancelled: bool,
    ) -> (progress: SetupProgress)
        ensures
            accepting_reacts(
                (DisplaySetup { context: self, phase: SetupPhase::Accepting(reserved) }),
                reserved,
                reply,
                cancelled,
                progress,
            ),
    {
        match reply {
            SetupReply::Accepted(Ok(accepted)) => {
                if cancelled {
                    return failed(DisplaySetupError::Cancelled, stop_backend());
                }
                let action = SetupAction::SelectLayout {
                    offered: copied(&reserved.offer.raw_layouts),
                    supported: copied(&accepted.raw_layouts),
                };
                self.next(SetupPhase::SelectingLayout(reserved, accepted), action)
            },
            SetupReply::Accepted(Err(error)) => failed(
                DisplaySetupError::Prepare(error),
                stop_backend(),
            ),
            _ => failed(DisplaySetupError::Cancelled, stop_backend()),
        }
    }

    /// Keep the selected layout, and look at the device once more.
    fn keep_layout(
        self,
        reserved: ReservedSetup,
        accepted: AcceptedCapabilities,
        reply: SetupReply,
    ) -> (progress: SetupProgress)
        ensures
            selecting_layout_reacts(
                (DisplaySetup {
                    context: self,
                    phase: SetupPhase::SelectingLayout(reserved, accepted),
                }),
                reserved,
                accepted,
                reply,
                progress,
            ),
    {
        match reply {
            SetupReply::LayoutSelected(Ok(raw_layout)) => self.next(
                SetupPhase::RevalidatingPrepared(
                    BackendReadySetup {
                        reserved,
                        prepared: accepted.prepared,
                        video_profile_id: accepted.video_profile_id,
                        raw_layout,
                        modes: accepted.modes,
                    },
                ),
                SetupAction::Revalidate,
            ),
            SetupReply::LayoutSelected(Err(text)) => failed(
                DisplaySetupError::Monitor(text),
                stop_backend(),
            ),
            _ => failed(DisplaySetupError::Cancelled, stop_backend()),
        }
    }

    /// Watch the session of the device that is still there.
    fn start_monitor(
        self,
        ready: BackendReadySetup,
        reply: SetupReply,
        cancelled: bool,
    ) -> (progress: SetupProgress)
        ensures
            revalidating_prepared_reacts(
                (DisplaySetup { context: self, phase: SetupPhase::RevalidatingPrepared(ready) }),
                ready,
                reply,
                cancelled,
                progress,
            ),
    {
        if cancelled {
            return failed(DisplaySetupError::Cancelled, stop_backend());
        }
        match reply {
            SetupReply::Revalidated(Ok(())) => self.next(
                SetupPhase::StartingMonitor(ready),
                SetupAction::StartMonitor,
            ),
            SetupReply::Revalidated(Err(error)) => failed(
                DisplaySetupError::Device(error),
                stop_backend(),
            ),
            _ => failed(DisplaySetupError::Cancelled, stop_backend()),
        }
    }

    /// Attach the monitor of the watched device.
    fn attach(
        self,
        ready: BackendReadySetup,
        reply: SetupReply,
        cancelled: bool,
    ) -> (progress: SetupProgress)
        ensures
            starting_monitor_reacts(
                (DisplaySetup { context: self, phase: SetupPhase::StartingMonitor(ready) }),
                ready,
                reply,
                cancelled,
                progress,
            ),
    {
        if cancelled {
            return failed(DisplaySetupError::Cancelled, stop_backend());
        }
        match reply {
            SetupReply::MonitorStarted(Ok(())) => match NonZeroU32::new(
                ready.reserved.output.crtc_id,
            ) {
                Some(crtc_id) => {
                    let config = KernelDisplayConfig {
                        crtc_id,
                        modes: copied(&ready.modes),
                        poll_interval_ns: DEFAULT_TOPOLOGY_POLL_INTERVAL_NS,
                    };
                    self.show(
                        SetupPhase::Attaching(ready),
                        SetupAction::Attach { config },
                        DisplaySetupStage::Attaching,
                    )
                },
                None => failed(
                    DisplaySetupError::Monitor(
                        "reserved CastKMS output has a zero CRTC ID".to_owned(),
                    ),
                    stop_backend(),
                ),
            },
            SetupReply::MonitorStarted(Err(error)) => failed(
                DisplaySetupError::Backend(error),
                stop_backend(),
            ),
            _ => failed(DisplaySetupError::Cancelled, stop_backend()),
        }
    }

    /// Take the media authority of the attached monitor.
    fn take_access(self, ready: BackendReadySetup, reply: SetupReply) -> (progress: SetupProgress)
        ensures
            attaching_reacts(
                (DisplaySetup { context: self, phase: SetupPhase::Attaching(ready) }),
                ready,
                reply,
                progress,
            ),
    {
        match reply {
            SetupReply::Attached(Ok(())) => {
                let source = self.media_runtime.capture_source;
                self.next(SetupPhase::TakingAccess(ready), SetupAction::TakeMediaAccess { source })
            },
            SetupReply::Attached(Err(AttachError::Cancelled)) => failed(
                DisplaySetupError::Cancelled,
                stop_backend(),
            ),
            SetupReply::Attached(Err(error)) => failed(
                DisplaySetupError::KernelAttach(error),
                stop_backend(),
            ),
            _ => failed(DisplaySetupError::Cancelled, stop_backend()),
        }
    }

    /// Find the sockets of the media services.
    fn find_sockets(
        self,
        ready: BackendReadySetup,
        reply: SetupReply,
        cancelled: bool,
    ) -> (progress: SetupProgress)
        ensures
            taking_access_reacts(
                (DisplaySetup { context: self, phase: SetupPhase::TakingAccess(ready) }),
                ready,
                reply,
                cancelled,
                progress,
            ),
    {
        match reply {
            SetupReply::AccessTaken(Ok(())) => {
                if cancelled {
                    return failed(DisplaySetupError::Cancelled, clean_up_attached());
                }
                let action = SetupAction::FindSockets {
                    directory: self.media_runtime.directory.clone(),
                    server_uid: self.media_runtime.server_uid,
                };
                self.next(SetupPhase::FindingSockets(ready), action)
            },
            SetupReply::AccessTaken(Err(_)) => {
                let cleanup: Vec<SetupCleanup> = vec![
                    SetupCleanup::DetachKernel,
                    SetupCleanup::StopBackend,
                ];
                proof {
                    assert(cleanup@ =~= seq![SetupCleanup::DetachKernel, SetupCleanup::StopBackend]);
                }
                failed(DisplaySetupError::KernelAccess, cleanup)
            },
            _ => failed(DisplaySetupError::Cancelled, stop_backend()),
        }
    }

    /// Open the pipeline of the selected source.
    fn open_pipeline(self, ready: BackendReadySetup, reply: SetupReply) -> (progress: SetupProgress)
        requires
            ready.reserved.output.connector_id != 0,
        ensures
            finding_sockets_reacts(
                (DisplaySetup { context: self, phase: SetupPhase::FindingSockets(ready) }),
                ready,
                reply,
                progress,
            ),
    {
        match reply {
            SetupReply::SocketsFound(Ok(())) => {
                let segment = self.display_id.object_segment();
                let config = DisplayMediaConfig {
                    connector_id: NonZeroU32::known(ready.reserved.output.connector_id),
                    output_index: ready.reserved.output.id.output_index,
                    session_id: self.display_id.to_text(),
                    device_instance: concat("cast-display-", segment.as_str()),
                    node_description: ready.reserved.device.display_name.clone(),
                    video_profile_id: ready.video_profile_id.clone(),
                    video_bitrate: NonZeroU64::known(VIDEO_BITRATE),
                    capture_rate_hz: NonZeroU32::known(VIDEO_FRAME_RATE_NUMERATOR),
                };
                let ghost asked = config;
                proof {
                    assert(configures(asked, self.display_id@, ready));
                }
                let plan = create_pipeline(self.media_runtime.capture_source, config);
                let raw_layout = ready.raw_layout;
                self.next(
                    SetupPhase::OpeningPipeline(ready),
                    SetupAction::OpenPipeline { plan, raw_layout },
                )
            },
            SetupReply::SocketsFound(Err(text)) => failed_with(
                "construct classified PipeWire paths: ",
                text.as_str(),
                clean_up_attached(),
            ),
            _ => failed(DisplaySetupError::Cancelled, clean_up_attached()),
        }
    }

    /// Hand over the display whose pipeline is open.
    fn finish(self, ready: BackendReadySetup, reply: SetupReply) -> (progress: SetupProgress)
        ensures
            opening_pipeline_reacts(
                (DisplaySetup { context: self, phase: SetupPhase::OpeningPipeline(ready) }),
                ready,
                reply,
                progress,
            ),
    {
        let cleanup: Vec<SetupCleanup> = vec![SetupCleanup::StopBackend, SetupCleanup::DetachKernel];
        proof {
            assert(cleanup@ =~= seq![SetupCleanup::StopBackend, SetupCleanup::DetachKernel]);
        }
        match reply {
            SetupReply::PipelineOpened(Ok(())) => SetupProgress::Added(
                SetupOutput {
                    display: AddedCastDisplay {
                        display_id: self.display_id,
                        state_revision: ready.reserved.device.device_revision,
                        device: ready.reserved.device,
                    },
                    output: ready.reserved.output,
                    prepared: ready.prepared,
                    initial_session_generation: NonZeroU64::known(INITIAL_SESSION_GENERATION),
                    recovery_factory: SessionFactory {
                        session_id: self.display_id.to_text(),
                        offer: ready.reserved.offer,
                        audio_enabled: KERNEL_AUDIO_ENABLED,
                    },
                },
            ),
            SetupReply::PipelineOpened(Err(text)) => failed_with(
                "open selected capture pipeline: ",
                text.as_str(),
                cleanup,
            ),
            _ => failed(DisplaySetupError::Cancelled, cleanup),
        }
    }
}

impl DisplaySetup {
    /// Set up a display for which an output is still to be reserved.
    pub fn pending(context: SetupContext, offer: PreparationRequest) -> (begun: (Self, SetupAction))
        ensures
            begun.0 == (DisplaySetup { context, phase: SetupPhase::Reserving { offer } }),
            begun.0.phase.wf(),
            begun.1 is Reserve,
    {
        (DisplaySetup { context, phase: SetupPhase::Reserving { offer } }, SetupAction::Reserve)
    }

    /// Set up a display on an output that is already reserved.
    pub fn ready(
        context: SetupContext,
        offer: PreparationRequest,
        device: DeviceInfo,
        output: CastKmsOutput,
        cancelled: bool,
    ) -> (progress: SetupProgress)
        requires
            output.connector_id != 0,
        ensures
            if cancelled {
                fails(progress, DisplaySetupError::Cancelled, Seq::empty())
            } else {
                progress == (SetupProgress::Next {
                    setup: DisplaySetup {
                        context,
                        phase: SetupPhase::Acquiring(ReservedSetup { device, output, offer }),
                    },
                    action: SetupAction::AcquireKernelSession {
                        output,
                        audio_enabled: context.audio_enabled,
                    },
                    shown: None,
                })
            },
    {
        if cancelled {
            return failed(DisplaySetupError::Cancelled, Vec::new());
        }
        let action = SetupAction::AcquireKernelSession {
            output: output.clone(),
            audio_enabled: context.audio_enabled,
        };
        context.next(SetupPhase::Acquiring(ReservedSetup { device, output, offer }), action)
    }

    /// Whether the setup waits for this answer.
    pub fn takes(&self, reply: &SetupReply) -> (takes: bool)
        ensures
            takes == self.phase.awaits(*reply),
    {
        match (&self.phase, reply) {
            (SetupPhase::Reserving { .. }, SetupReply::Interrupted) => true,
            (SetupPhase::Reserving { .. }, SetupReply::Reserved(Ok(reserved))) => {
                reserved.1.connector_id != 0
            },
            (SetupPhase::Reserving { .. }, SetupReply::Reserved(Err(_))) => true,
            (SetupPhase::Acquiring(_), SetupReply::KernelSession(_)) => true,
            (SetupPhase::Probing(_), SetupReply::Interrupted | SetupReply::Probed(_)) => true,
            (
                SetupPhase::RevalidatingReserved(_),
                SetupReply::Interrupted | SetupReply::Revalidated(_),
            ) => true,
            (
                SetupPhase::CreatingSession(_),
                SetupReply::Interrupted | SetupReply::SessionCreated(_),
            ) => true,
            (SetupPhase::Preparing(_), SetupReply::Interrupted | SetupReply::Prepared(_)) => true,
            (SetupPhase::Accepting(_), SetupReply::Accepted(_)) => true,
            (SetupPhase::SelectingLayout(..), SetupReply::LayoutSelected(_)) => true,
            (
                SetupPhase::RevalidatingPrepared(_),
                SetupReply::Interrupted | SetupReply::Revalidated(_),
            ) => true,
            (
                SetupPhase::StartingMonitor(_),
                SetupReply::Interrupted | SetupReply::MonitorStarted(_),
            ) => true,
            (SetupPhase::Attaching(_), SetupReply::Attached(_)) => true,
            (SetupPhase::TakingAccess(_), SetupReply::AccessTaken(_)) => true,
            (SetupPhase::FindingSockets(_), SetupReply::SocketsFound(_)) => true,
            (SetupPhase::OpeningPipeline(_), SetupReply::PipelineOpened(_)) => true,
            _ => false,
        }
    }

    /// Go on after an answer. `cancelled` tells whether the setup was
    /// cancelled by then: what it waits for in vain does not count any more.
    pub fn proceed(self, reply: SetupReply, cancelled: bool) -> (progress: SetupProgress)
        requires
            self.phase.wf(),
            self.phase.awaits(reply),
        ensures
            setup_reacts(self, reply, cancelled, progress),
            progress matches SetupProgress::Next { setup, .. } ==> setup.phase.wf(),
    {
        let context = self.context;
        match self.phase {
            SetupPhase::Reserving { offer } => context.reserve(offer, reply, cancelled),
            SetupPhase::Acquiring(reserved) => context.acquire(reserved, reply, cancelled),
            SetupPhase::Probing(reserved) => context.probe(reserved, reply, cancelled),
            SetupPhase::RevalidatingReserved(reserved) => {
                context.create_session(reserved, reply, cancelled)
            },
            SetupPhase::CreatingSession(reserved) => context.prepare(reserved, reply, cancelled),
            SetupPhase::Preparing(reserved) => context.judge(reserved, reply, cancelled),
            SetupPhase::Accepting(reserved) => context.select_layout(reserved, reply, cancelled),
            SetupPhase::SelectingLayout(reserved, accepted) => {
                context.keep_layout(reserved, accepted, reply)
            },
            SetupPhase::RevalidatingPrepared(ready) => {
                context.start_monitor(ready, reply, cancelled)
            },
            SetupPhase::StartingMonitor(ready) => context.attach(ready, reply, cancelled),
            SetupPhase::Attaching(ready) => context.take_access(ready, reply),
            SetupPhase::TakingAccess(ready) => context.find_sockets(ready, reply, cancelled),
            SetupPhase::FindingSockets(ready) => context.open_pipeline(ready, reply),
            SetupPhase::OpeningPipeline(ready) => context.finish(ready, reply),
        }
    }
}

/// What a setup holds that does not go away by itself.
#[derive(Debug, Clone, Copy, PartialEq, Eq, Structural)]
pub enum SetupResource {
    PendingSession,
    BackendSession,
    AttachedMonitor,
    MediaAuthority,
}

impl SetupCleanup {
    /// What a cleanup takes down.
    pub open spec fn releases(self) -> Set<SetupResource> {
        match self {
            SetupCleanup::StopPendingSession => set![SetupResource::PendingSession],
            SetupCleanup::StopBackend => set![SetupResource::BackendSession],
            SetupCleanup::CleanUpAttached => set![
                SetupResource::AttachedMonitor,
                SetupResource::MediaAuthority,
            ],
            SetupCleanup::DetachKernel => set![SetupResource::AttachedMonitor],
        }
    }
}

/// What several cleanups take down.
pub open spec fn released_by(cleanup: Seq<SetupCleanup>) -> Set<SetupResource>
    decreases cleanup.len(),
{
    if cleanup.len() == 0 {
        Set::empty()
    } else {
        released_by(cleanup.drop_last()).union(cleanup.last().releases())
    }
}

/// What the phase has made before its own operation.
pub open spec fn made_before(phase: SetupPhase) -> Set<SetupResource> {
    match phase {
        SetupPhase::Preparing(_) => set![SetupResource::BackendSession],
        SetupPhase::Accepting(_) => set![SetupResource::BackendSession],
        SetupPhase::SelectingLayout(..) => set![SetupResource::BackendSession],
        SetupPhase::RevalidatingPrepared(_) => set![SetupResource::BackendSession],
        SetupPhase::StartingMonitor(_) => set![SetupResource::BackendSession],
        SetupPhase::Attaching(_) => set![SetupResource::BackendSession],
        SetupPhase::TakingAccess(_) => set![
            SetupResource::BackendSession,
            SetupResource::AttachedMonitor,
        ],
        SetupPhase::FindingSockets(_) => set![
            SetupResource::BackendSession,
            SetupResource::AttachedMonitor,
            SetupResource::MediaAuthority,
        ],
        SetupPhase::OpeningPipeline(_) => set![
            SetupResource::BackendSession,
            SetupResource::AttachedMonitor,
        ],
        _ => Set::empty(),
    }
}

/// What the phase's own operation has made, or may still make, when the setup
/// ends with this answer.
pub open spec fn made_by(phase: SetupPhase, reply: SetupReply, cancelled: bool) -> Set<
    SetupResource,
> {
    match (phase, reply) {
        (SetupPhase::CreatingSession(_), SetupReply::Interrupted) => set![
            SetupResource::PendingSession,
        ],
        (SetupPhase::CreatingSession(_), _) => if cancelled {
            set![SetupResource::PendingSession]
        } else {
            Set::empty()
        },
        (SetupPhase::TakingAccess(_), SetupReply::AccessTaken(Ok(_))) => set![
            SetupResource::MediaAuthority,
        ],
        _ => Set::empty(),
    }
}

/// A failed setup leaves nothing behind: its cleanup takes down exactly what
/// was made.
pub proof fn failed_setups_leave_nothing_behind(
    before: DisplaySetup,
    reply: SetupReply,
    cancelled: bool,
    progress: SetupProgress,
)
    requires
        before.phase.awaits(reply),
        setup_reacts(before, reply, cancelled, progress),
        progress is Failed,
    ensures
        released_by(progress->Failed_0.cleanup@) == made_before(before.phase).union(
            made_by(before.phase, reply, cancelled),
        ),
{
    let cleanup = progress->Failed_0.cleanup@;
    reveal_with_fuel(released_by, 3);
    if cleanup.len() == 2 {
        assert(cleanup.drop_last() =~= seq![cleanup[0]]);
        assert(cleanup.drop_last().drop_last() =~= Seq::empty());
    } else if cleanup.len() == 1 {
        assert(cleanup.drop_last() =~= Seq::empty());
    }
    assert(released_by(cleanup) =~= made_before(before.phase).union(
        made_by(before.phase, reply, cancelled),
    ));
}

/// The number of operations before this one.
pub open spec fn position(phase: SetupPhase) -> nat {
    match phase {
        SetupPhase::Reserving { .. } => 0,
        SetupPhase::Acquiring(_) => 1,
        SetupPhase::Probing(_) => 2,
        SetupPhase::RevalidatingReserved(_) => 3,
        SetupPhase::CreatingSession(_) => 4,
        SetupPhase::Preparing(_) => 5,
        SetupPhase::Accepting(_) => 6,
        SetupPhase::SelectingLayout(..) => 7,
        SetupPhase::RevalidatingPrepared(_) => 8,
        SetupPhase::StartingMonitor(_) => 9,
        SetupPhase::Attaching(_) => 10,
        SetupPhase::TakingAccess(_) => 11,
        SetupPhase::FindingSockets(_) => 12,
        SetupPhase::OpeningPipeline(_) => 13,
    }
}

/// A setup goes forward only, and so comes to an end. It stays with the device
/// and the output that were reserved for it, to the display that is added.
pub proof fn setups_go_forward_with_their_reservation(
    before: DisplaySetup,
    reply: SetupReply,
    cancelled: bool,
    progress: SetupProgress,
)
    requires
        before.phase.awaits(reply),
        setup_reacts(before, reply, cancelled, progress),
    ensures
        match progress {
            SetupProgress::Next { setup, .. } => {
                &&& setup.context == before.context
                &&& position(before.phase) < position(setup.phase) <= 13
                &&& before.phase.reserved() matches Some(reserved) ==> setup.phase.reserved()
                    is Some && setup.phase.reserved()->0.device == reserved.device
                    && setup.phase.reserved()->0.output == reserved.output
            },
            SetupProgress::Added(added) => {
                &&& position(before.phase) == 13
                &&& before.phase.reserved() matches Some(reserved) && added.display.device
                    == reserved.device && added.output == reserved.output
                &&& added.display.display_id == before.context.display_id
            },
            SetupProgress::Failed(_) => true,
        },
{
}

/// A setup that is cancelled while it waits does not go on, whatever the
/// answer. Attaching, the choice of a layout, the sockets and the pipeline are
/// carried through, and a renderer is still asked.
pub proof fn cancelled_setups_end(
    before: DisplaySetup,
    reply: SetupReply,
    progress: SetupProgress,
)
    requires
        before.phase.awaits(reply),
        setup_reacts(before, reply, true, progress),
        !(before.phase is SelectingLayout),
        !(before.phase is Attaching),
        !(before.phase is FindingSockets),
        !(before.phase is OpeningPipeline),
        !(before.phase is Acquiring && before.context.media_runtime.capture_source
            == CaptureSource::Renderer),
    ensures
        progress is Failed,
{
}

/// A setup asks each part for what was settled before: the session of the output that was
/// reserved, the layouts that the offered modes can have, a device session of the display's own
/// identity, and the preparation of the offer.
pub proof fn setups_ask_for_what_was_settled(
    before: DisplaySetup,
    reply: SetupReply,
    cancelled: bool,
    progress: SetupProgress,
)
    requires
        before.phase.awaits(reply),
        setup_reacts(before, reply, cancelled, progress),
        progress is Next,
    ensures
        ({
            let action = progress->Next_action;
            let next = progress->Next_setup.phase;
            &&& before.phase is Reserving ==> {
                let (device, output) = reply->Reserved_0->Ok_0;
                &&& reply is Reserved && reply->Reserved_0 is Ok
                &&& next.reserved() is Some && next.reserved()->0.device == device
                    && next.reserved()->0.output == output
                &&& action is AcquireKernelSession && action->AcquireKernelSession_output == output
                &&& action->AcquireKernelSession_audio_enabled == before.context.audio_enabled
            }
            &&& before.phase is Acquiring ==> {
                let offer = before.phase->Acquiring_0.offer@;
                &&& next.reserved()->0.offer@.audio_profiles.len() == 0
                &&& next.reserved()->0.offer@.requested_features == 0
                &&& next.reserved()->0.offer@.candidate_modes == offer.candidate_modes
                &&& action is ProbeLayouts <==> before.context.media_runtime.capture_source
                    is Renderer && reply->KernelSession_0->Ok_0 is Some
                &&& action is ProbeLayouts ==> Some(action->render_node)
                    == reply->KernelSession_0->Ok_0 && action->ProbeLayouts_modes@
                    == offer.candidate_modes
                &&& !(action is ProbeLayouts) ==> action is Revalidate
            }
            &&& before.phase is RevalidatingReserved ==> action is CreateSession
                && action->session_id@ == id_text(before.context.display_id@)
                && action->session_generation == 1 && action->CreateSession_requested_features
                == before.phase->RevalidatingReserved_0.offer.requested_features
            &&& before.phase is CreatingSession ==> action is Prepare && action->Prepare_offer@
                == before.phase->CreatingSession_0.offer@
            &&& before.phase is Preparing ==> action is AcceptCapabilities
                && action->AcceptCapabilities_device@ == before.phase->Preparing_0.device@
                && !action->AcceptCapabilities_audio_enabled
            &&& before.phase is Accepting ==> action is SelectLayout && action->offered@
                == before.phase->Accepting_0.offer.raw_layouts@ && action->supported@
                == reply->Accepted_0->Ok_0.raw_layouts@
        }),
{
}

/// Once the device is prepared, a setup attaches the output that was reserved, with the modes
/// that the device has, and captures it for the profile and the layout that were agreed on.
pub proof fn setups_attach_what_was_prepared(
    before: DisplaySetup,
    reply: SetupReply,
    cancelled: bool,
    progress: SetupProgress,
)
    requires
        before.phase.awaits(reply),
        setup_reacts(before, reply, cancelled, progress),
        progress is Next,
    ensures
        ({
            let action = progress->Next_action;
            let next = progress->Next_setup.phase;
            &&& before.phase matches SetupPhase::SelectingLayout(reserved, accepted) ==> {
                let ready = next->RevalidatingPrepared_0;
                &&& next is RevalidatingPrepared && action is Revalidate
                &&& ready.reserved == reserved
                &&& ready.prepared == accepted.prepared
                &&& ready.video_profile_id == accepted.video_profile_id
                &&& ready.modes == accepted.modes
                &&& ready.raw_layout == reply->LayoutSelected_0->Ok_0
            }
            &&& before.phase matches SetupPhase::RevalidatingPrepared(ready) ==> action
                is StartMonitor && next == SetupPhase::StartingMonitor(ready)
            &&& before.phase matches SetupPhase::StartingMonitor(ready) ==> action is Attach
                && action->config.crtc_id@ == ready.reserved.output.crtc_id
                && action->config.modes@ == ready.modes@ && action->config.poll_interval_ns > 0
                && next == SetupPhase::Attaching(ready)
            &&& before.phase matches SetupPhase::Attaching(ready) ==> action is TakeMediaAccess
                && action->source == before.context.media_runtime.capture_source && next
                == SetupPhase::TakingAccess(ready)
            &&& before.phase matches SetupPhase::TakingAccess(ready) ==> action is FindSockets
                && action->directory@ == before.context.media_runtime.directory@
                && action->server_uid == before.context.media_runtime.server_uid && next
                == SetupPhase::FindingSockets(ready)
            &&& before.phase matches SetupPhase::FindingSockets(ready) ==> action is OpenPipeline
                && action->OpenPipeline_raw_layout == ready.raw_layout && next
                == SetupPhase::OpeningPipeline(ready) && (action->plan is Renderer
                <==> before.context.media_runtime.capture_source is Renderer)
        }),
{
}

/// A pipeline is opened on the connector and for the device of the display, under its identity,
/// at eight million bits and thirty frames a second.
pub proof fn pipelines_are_opened_for_their_display(
    config: DisplayMediaConfig,
    display_id: Seq<u8>,
    ready: BackendReadySetup,
)
    requires
        configures(config, display_id, ready),
    ensures
        config.connector_id@ == ready.reserved.output.connector_id,
        config.output_index == ready.reserved.output.id.output_index,
        config.session_id@ == id_text(display_id),
        config.device_instance@.skip(13) == segment_text(display_id),
        config.node_description@ == ready.reserved.device.display_name@,
        config.video_profile_id@ == ready.video_profile_id@,
        config.video_bitrate@ == 8 * 1_000_000,
        config.capture_rate_hz@ == 30,
{
    reveal_strlit("cast-display-");
    assert(config.device_instance@.skip(13) =~= segment_text(display_id));
}

/// A display that was added is the one of the setup: its identity, its device and its output,
/// what was prepared, and a factory that makes more sessions like the first.
pub proof fn added_displays_are_those_of_their_setup(
    before: DisplaySetup,
    reply: SetupReply,
    cancelled: bool,
    progress: SetupProgress,
)
    requires
        before.phase.awaits(reply),
        setup_reacts(before, reply, cancelled, progress),
    ensures
        progress is Added <==> before.phase is OpeningPipeline && reply->PipelineOpened_0 is Ok,
        progress is Added ==> ({
            let added = progress->Added_0;
            let ready = before.phase->OpeningPipeline_0;
            &&& added.display.display_id == before.context.display_id
            &&& added.display.device == ready.reserved.device
            &&& added.display.state_revision == ready.reserved.device.device_revision
            &&& added.output == ready.reserved.output
            &&& added.prepared == ready.prepared
            &&& added.initial_session_generation@ == 1
            &&& added.recovery_factory.session_id@ == id_text(before.context.display_id@)
            &&& added.recovery_factory.offer == ready.reserved.offer
            &&& !added.recovery_factory.audio_enabled
        }),
{
}

/// A setup shows its stage as it goes: it authorizes once an output is reserved, prepares once
/// the device was found again, and attaches once the session is watched; no other step shows
/// one.
pub proof fn setups_show_their_stage(
    before: DisplaySetup,
    reply: SetupReply,
    cancelled: bool,
    progress: SetupProgress,
)
    requires
        before.phase.awaits(reply),
        setup_reacts(before, reply, cancelled, progress),
        progress is Next,
    ensures
        progress->shown == Some(DisplaySetupStage::Authorizing) <==> before.phase is Reserving,
        progress->shown == Some(DisplaySetupStage::PreparingDevice) <==> before.phase
            is RevalidatingReserved,
        progress->shown == Some(DisplaySetupStage::Attaching) <==> before.phase is StartingMonitor,
        progress->shown is Some ==> before.phase is Reserving || before.phase is RevalidatingReserved
            || before.phase is StartingMonitor,
{
}

/// A failed step is the error of the setup, as it was told.
pub proof fn failed_steps_are_the_error(
    before: DisplaySetup,
    reply: SetupReply,
    progress: SetupProgress,
)
    requires
        before.phase.awaits(reply),
        setup_reacts(before, reply, false, progress),
    ensures
        reply matches SetupReply::Reserved(Err(error)) ==> progress is Failed
            && progress->Failed_0.error == DisplaySetupError::Reserve(error),
        reply matches SetupReply::Revalidated(Err(error)) ==> progress is Failed
            && progress->Failed_0.error == DisplaySetupError::Device(error),
        reply matches SetupReply::SessionCreated(Err(error)) ==> progress is Failed
            && progress->Failed_0.error == DisplaySetupError::Backend(error),
        reply matches SetupReply::Prepared(Err(error)) ==> progress is Failed
            && progress->Failed_0.error == DisplaySetupError::Backend(error),
        reply matches SetupReply::MonitorStarted(Err(error)) ==> progress is Failed
            && progress->Failed_0.error == DisplaySetupError::Backend(error),
        reply matches SetupReply::Accepted(Err(error)) ==> progress is Failed
            && progress->Failed_0.error == DisplaySetupError::Prepare(error),
        reply matches SetupReply::KernelSession(Err(error)) ==> progress is Failed && (if error
            is Cancelled {
            progress->Failed_0.error is Cancelled
        } else {
            progress->Failed_0.error == DisplaySetupError::KernelSession(error)
        }),
        reply matches SetupReply::Attached(Err(error)) ==> progress is Failed && (if error
            is Cancelled {
            progress->Failed_0.error is Cancelled
        } else {
            progress->Failed_0.error == DisplaySetupError::KernelAttach(error)
        }),
        reply matches SetupReply::LayoutSelected(Err(text)) ==> progress is Failed
            && progress->Failed_0.error is Monitor && progress->Failed_0.error->Monitor_0@ == text@,
        reply matches SetupReply::AccessTaken(Err(text)) ==> progress is Failed
            && progress->Failed_0.error is KernelAccess,
        reply is Interrupted ==> progress is Failed && progress->Failed_0.error is Cancelled,
{
}

/// A renderer that was probed is offered with the layouts that were found, for the same device and
/// output; the device is then looked for again.
pub proof fn probed_layouts_are_offered(
    before: DisplaySetup,
    found: Result<OutputLayouts, ProbeError>,
    progress: SetupProgress,
)
    requires
        before.phase is Probing,
        setup_reacts(before, SetupReply::Probed(found), false, progress),
    ensures
        ({
            let reserved = before.phase->Probing_0;
            let next = progress->Next_setup.phase->RevalidatingReserved_0;
            &&& progress is Next && progress->Next_action is Revalidate
            &&& progress->Next_setup.phase is RevalidatingReserved
            &&& next.device == reserved.device && next.output == reserved.output
            &&& next.offer@.candidate_modes == reserved.offer@.candidate_modes
            &&& found is Ok ==> next.offer@.raw_layouts == found->Ok_0.raw_layouts@
            &&& found is Err ==> next.offer@.raw_layouts.len() == 1
                && next.offer@.mode_raw_layouts.len() == 0
        }),
{
}

} // verus!
