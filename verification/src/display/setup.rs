//! What a setup of a cast display offers, shows, and fails with.

use crate::capture_output_layouts::{
    lists_view, system_only, system_only_offer, without_renderer, LayoutsView, OutputLayouts,
    ProbeError, RawVideoLayout,
};
use crate::device_session::DisplayMode;
use crate::display::{
    bounded_text, marked, CastDisplayId, DisplaySetupStage, MAX_OPERATION_ERROR_BYTES,
};
use crate::display_media::CaptureSource;
use crate::kernel_display::AttachError;
use crate::kernel_session::KernelSessionError;
use crate::manager::{OutputReservationError, ReserveDisplaySlotError, ResolveDeviceError};
use crate::protocol::text_view;
use crate::text::{clip, concat, texts_view};
use vstd::prelude::*;

verus! {

/// Why a setup operation ended, in public terms.
#[derive(Debug, Clone, Copy, PartialEq, Eq, Structural)]
pub enum OperationErrorCode {
    NoError,
    Cancelled,
    CallerExited,
    InvalidRequest,
    DeviceNotFound,
    DeviceChanged,
    DeviceUnavailable,
    BackendUnavailable,
    CapacityExhausted,
    DeviceAlreadyAdded,
    AuthorizationFailed,
    DevicePreparationFailed,
    AttachmentFailed,
    Internal,
}

/// The kinds of failure of a backend session.
#[derive(Debug, Clone, Copy, PartialEq, Eq, Structural)]
pub enum BackendSessionError {
    BackendUnavailable,
    SupervisorStopped,
    MonitorStopped,
    MethodTimeout,
    Protocol,
    InvalidStatistics,
    StaleStatisticsGeneration,
    InvalidControlCompletion,
    ControlFailed,
    ControlCompletionStreamClosed,
    StaleConnectionGeneration,
    StaleDiscoveryGeneration,
    StalePreparationGeneration,
    DeviceUnavailable,
    UnexpectedObjectPath,
    InvalidCapabilities,
    CapabilitiesOutsideOffer,
    InvalidRequest,
}

/// The kinds of failure of a device preparation.
#[derive(Debug, Clone, Copy, PartialEq, Eq, Structural)]
pub enum PrepareCastDeviceError {
    DeviceUnavailable,
    InvalidCapabilities,
    UnsupportedIdentitySource,
    Pnp,
    NoSupportedMode,
    MissingRequired640x480,
    Edid,
    InvalidDevice,
}

/// Why a display was not added.
#[derive(Debug, PartialEq, Eq)]
pub enum DisplaySetupError {
    Cancelled,
    CallerExited,
    CallerMonitor,
    CallerTask,
    ReservationConsumed,
    Reserve(ReserveDisplaySlotError),
    Device(ResolveDeviceError),
    KernelSession(KernelSessionError),
    Backend(BackendSessionError),
    Prepare(PrepareCastDeviceError),
    KernelAccess,
    KernelAttach(AttachError),
    Monitor(String),
}

impl DisplaySetupError {
    /// The error as one line. `cause` is the text of what came from outside,
    /// where the error has such a part.
    pub open spec fn text(self, cause: Seq<char>) -> Seq<char> {
        match self {
            DisplaySetupError::Cancelled => "display setup was cancelled"@,
            DisplaySetupError::CallerExited => "display-setup caller exited"@,
            DisplaySetupError::CallerMonitor => "wait for display-setup caller exit: "@ + cause,
            DisplaySetupError::CallerTask => "caller monitor task failed: "@ + cause,
            DisplaySetupError::ReservationConsumed =>
                "pending display reservation was already consumed"@,
            DisplaySetupError::Reserve(error) =>
                "reserve a CastKMS output for the selected Device: "@ + error.text(cause),
            DisplaySetupError::Device(error) =>
                "selected Device changed during display setup: "@ + error.text(),
            DisplaySetupError::KernelSession(error) =>
                "acquire kernel display session: "@ + error.text(),
            DisplaySetupError::Backend(_) => "backend display session failed: "@ + cause,
            DisplaySetupError::Prepare(_) => "prepare selected Device identity and EDID: "@ + cause,
            DisplaySetupError::KernelAccess => "derive kernel access: "@ + cause,
            DisplaySetupError::KernelAttach(error) =>
                "attach selected Device through monitor control: "@ + error.text(),
            DisplaySetupError::Monitor(error) => "start CastKMS display monitor: "@ + error@,
        }
    }

    pub fn to_text(&self, cause: &str) -> (text: String)
        ensures
            text@ == self.text(cause@),
    {
        match self {
            DisplaySetupError::Cancelled => "display setup was cancelled".to_owned(),
            DisplaySetupError::CallerExited => "display-setup caller exited".to_owned(),
            DisplaySetupError::CallerMonitor =>
                concat("wait for display-setup caller exit: ", cause),
            DisplaySetupError::CallerTask => concat("caller monitor task failed: ", cause),
            DisplaySetupError::ReservationConsumed =>
                "pending display reservation was already consumed".to_owned(),
            DisplaySetupError::Reserve(error) => concat(
                "reserve a CastKMS output for the selected Device: ",
                error.to_text(cause).as_str(),
            ),
            DisplaySetupError::Device(error) => concat(
                "selected Device changed during display setup: ",
                error.to_text().as_str(),
            ),
            DisplaySetupError::KernelSession(error) =>
                concat("acquire kernel display session: ", error.to_text().as_str()),
            DisplaySetupError::Backend(_) => concat("backend display session failed: ", cause),
            DisplaySetupError::Prepare(_) =>
                concat("prepare selected Device identity and EDID: ", cause),
            DisplaySetupError::KernelAccess => concat("derive kernel access: ", cause),
            DisplaySetupError::KernelAttach(error) =>
                concat(
                    "attach selected Device through monitor control: ",
                    error.to_text().as_str(),
                ),
            DisplaySetupError::Monitor(error) =>
                concat("start CastKMS display monitor: ", error.as_str()),
        }
    }
}

/// Why a setup operation gave no display.
#[derive(Debug, PartialEq, Eq)]
pub enum DisplaySetupOperationError {
    AlreadyFinished,
    Task(String),
    Setup(DisplaySetupError),
}

impl DisplaySetupOperationError {
    /// The error as one line. `cause` is the text of what came from outside,
    /// where the setup's error has such a part.
    pub open spec fn text(self, cause: Seq<char>) -> Seq<char> {
        match self {
            DisplaySetupOperationError::AlreadyFinished =>
                "display setup operation was already finished"@,
            DisplaySetupOperationError::Task(error) => "display setup task failed: "@ + error@,
            DisplaySetupOperationError::Setup(error) =>
                "display setup failed: "@ + error.text(cause),
        }
    }

    pub fn to_text(&self, cause: &str) -> (text: String)
        ensures
            text@ == self.text(cause@),
    {
        match self {
            DisplaySetupOperationError::AlreadyFinished =>
                "display setup operation was already finished".to_owned(),
            DisplaySetupOperationError::Task(error) =>
                concat("display setup task failed: ", error.as_str()),
            DisplaySetupOperationError::Setup(error) =>
                concat("display setup failed: ", error.to_text(cause).as_str()),
        }
    }
}

pub open spec fn resolve_code(error: ResolveDeviceError) -> OperationErrorCode {
    match error {
        ResolveDeviceError::InvalidSelection(_) => OperationErrorCode::InvalidRequest,
        ResolveDeviceError::NotFound { .. } => OperationErrorCode::DeviceNotFound,
        ResolveDeviceError::StaleSelection { .. } => OperationErrorCode::DeviceChanged,
        ResolveDeviceError::Unavailable { .. } => OperationErrorCode::DeviceUnavailable,
        ResolveDeviceError::BackendUnavailable { .. } => OperationErrorCode::BackendUnavailable,
        ResolveDeviceError::ManagerStopped => OperationErrorCode::Internal,
    }
}

pub fn resolve_device_error_code(error: &ResolveDeviceError) -> (code: OperationErrorCode)
    ensures
        code == resolve_code(*error),
{
    match error {
        ResolveDeviceError::InvalidSelection(_) => OperationErrorCode::InvalidRequest,
        ResolveDeviceError::NotFound { .. } => OperationErrorCode::DeviceNotFound,
        ResolveDeviceError::StaleSelection { .. } => OperationErrorCode::DeviceChanged,
        ResolveDeviceError::Unavailable { .. } => OperationErrorCode::DeviceUnavailable,
        ResolveDeviceError::BackendUnavailable { .. } => OperationErrorCode::BackendUnavailable,
        ResolveDeviceError::ManagerStopped => OperationErrorCode::Internal,
    }
}

/// The backend cannot be used, whatever the device.
pub open spec fn backend_fault(error: BackendSessionError) -> bool {
    match error {
        BackendSessionError::BackendUnavailable => true,
        BackendSessionError::SupervisorStopped => true,
        BackendSessionError::MonitorStopped => true,
        BackendSessionError::MethodTimeout => true,
        BackendSessionError::Protocol => true,
        BackendSessionError::InvalidStatistics => true,
        BackendSessionError::StaleStatisticsGeneration => true,
        BackendSessionError::InvalidControlCompletion => true,
        BackendSessionError::ControlFailed => true,
        BackendSessionError::ControlCompletionStreamClosed => true,
        _ => false,
    }
}

pub open spec fn backend_code(error: BackendSessionError) -> OperationErrorCode {
    if backend_fault(error) {
        OperationErrorCode::BackendUnavailable
    } else {
        match error {
            BackendSessionError::StaleConnectionGeneration => OperationErrorCode::DeviceChanged,
            BackendSessionError::StaleDiscoveryGeneration => OperationErrorCode::DeviceChanged,
            BackendSessionError::StalePreparationGeneration => OperationErrorCode::DeviceChanged,
            BackendSessionError::DeviceUnavailable => OperationErrorCode::DeviceUnavailable,
            BackendSessionError::InvalidRequest => OperationErrorCode::Internal,
            _ => OperationErrorCode::DevicePreparationFailed,
        }
    }
}

pub fn backend_session_error_code(error: BackendSessionError) -> (code: OperationErrorCode)
    ensures
        code == backend_code(error),
{
    match error {
        BackendSessionError::BackendUnavailable
        | BackendSessionError::SupervisorStopped
        | BackendSessionError::MonitorStopped
        | BackendSessionError::MethodTimeout
        | BackendSessionError::Protocol
        | BackendSessionError::InvalidStatistics
        | BackendSessionError::StaleStatisticsGeneration
        | BackendSessionError::InvalidControlCompletion
        | BackendSessionError::ControlFailed
        | BackendSessionError::ControlCompletionStreamClosed => {
            OperationErrorCode::BackendUnavailable
        },
        BackendSessionError::StaleConnectionGeneration
        | BackendSessionError::StaleDiscoveryGeneration
        | BackendSessionError::StalePreparationGeneration => OperationErrorCode::DeviceChanged,
        BackendSessionError::DeviceUnavailable => OperationErrorCode::DeviceUnavailable,
        BackendSessionError::UnexpectedObjectPath
        | BackendSessionError::InvalidCapabilities
        | BackendSessionError::CapabilitiesOutsideOffer => {
            OperationErrorCode::DevicePreparationFailed
        },
        BackendSessionError::InvalidRequest => OperationErrorCode::Internal,
    }
}

pub open spec fn prepare_code(error: PrepareCastDeviceError) -> OperationErrorCode {
    match error {
        PrepareCastDeviceError::DeviceUnavailable => OperationErrorCode::DeviceUnavailable,
        PrepareCastDeviceError::InvalidDevice => OperationErrorCode::Internal,
        _ => OperationErrorCode::DevicePreparationFailed,
    }
}

pub fn prepare_device_error_code(error: PrepareCastDeviceError) -> (code: OperationErrorCode)
    ensures
        code == prepare_code(error),
{
    match error {
        PrepareCastDeviceError::DeviceUnavailable => OperationErrorCode::DeviceUnavailable,
        PrepareCastDeviceError::InvalidCapabilities
        | PrepareCastDeviceError::UnsupportedIdentitySource
        | PrepareCastDeviceError::Pnp
        | PrepareCastDeviceError::NoSupportedMode
        | PrepareCastDeviceError::MissingRequired640x480
        | PrepareCastDeviceError::Edid => OperationErrorCode::DevicePreparationFailed,
        PrepareCastDeviceError::InvalidDevice => OperationErrorCode::Internal,
    }
}

/// The public code of a setup failure.
pub open spec fn setup_code(error: DisplaySetupError) -> OperationErrorCode {
    match error {
        DisplaySetupError::Cancelled => OperationErrorCode::Cancelled,
        DisplaySetupError::CallerExited => OperationErrorCode::CallerExited,
        DisplaySetupError::Reserve(ReserveDisplaySlotError::Device(error)) => resolve_code(error),
        DisplaySetupError::Device(error) => resolve_code(error),
        DisplaySetupError::Reserve(
            ReserveDisplaySlotError::Output(OutputReservationError::CapacityExhausted),
        ) => OperationErrorCode::CapacityExhausted,
        DisplaySetupError::Reserve(
            ReserveDisplaySlotError::Output(OutputReservationError::DeviceAlreadyClaimed),
        ) => OperationErrorCode::DeviceAlreadyAdded,
        DisplaySetupError::KernelSession(KernelSessionError::UnsupportedAudio) =>
            OperationErrorCode::InvalidRequest,
        DisplaySetupError::KernelSession(_) => OperationErrorCode::AuthorizationFailed,
        DisplaySetupError::Backend(error) => backend_code(error),
        DisplaySetupError::Prepare(error) => prepare_code(error),
        DisplaySetupError::KernelAttach(AttachError::Cancelled) => OperationErrorCode::Cancelled,
        DisplaySetupError::KernelAttach(AttachError::Rejected(_)) =>
            OperationErrorCode::AttachmentFailed,
        _ => OperationErrorCode::Internal,
    }
}

impl DisplaySetupError {
    pub fn operation_error_code(&self) -> (code: OperationErrorCode)
        ensures
            code == setup_code(*self),
    {
        match self {
            DisplaySetupError::Cancelled => OperationErrorCode::Cancelled,
            DisplaySetupError::CallerExited => OperationErrorCode::CallerExited,
            DisplaySetupError::Reserve(ReserveDisplaySlotError::Device(error)) => {
                resolve_device_error_code(error)
            },
            DisplaySetupError::Device(error) => resolve_device_error_code(error),
            DisplaySetupError::Reserve(
                ReserveDisplaySlotError::Output(OutputReservationError::CapacityExhausted),
            ) => OperationErrorCode::CapacityExhausted,
            DisplaySetupError::Reserve(
                ReserveDisplaySlotError::Output(OutputReservationError::DeviceAlreadyClaimed),
            ) => OperationErrorCode::DeviceAlreadyAdded,
            DisplaySetupError::KernelSession(KernelSessionError::UnsupportedAudio) => {
                OperationErrorCode::InvalidRequest
            },
            DisplaySetupError::KernelSession(_) => OperationErrorCode::AuthorizationFailed,
            DisplaySetupError::Backend(error) => backend_session_error_code(*error),
            DisplaySetupError::Prepare(error) => prepare_device_error_code(*error),
            DisplaySetupError::KernelAttach(AttachError::Cancelled) => {
                OperationErrorCode::Cancelled
            },
            DisplaySetupError::KernelAttach(AttachError::Rejected(_)) => {
                OperationErrorCode::AttachmentFailed
            },
            DisplaySetupError::CallerMonitor
            | DisplaySetupError::CallerTask
            | DisplaySetupError::ReservationConsumed
            | DisplaySetupError::Reserve(_)
            | DisplaySetupError::KernelAttach(_)
            | DisplaySetupError::KernelAccess
            | DisplaySetupError::Monitor(_) => OperationErrorCode::Internal,
        }
    }
}

/// The public state of a setup operation.
#[derive(Debug, PartialEq, Eq)]
pub struct DisplaySetupSnapshot {
    pub display_id: CastDisplayId,
    pub stage: DisplaySetupStage,
    pub error_code: OperationErrorCode,
    pub error: Option<String>,
}

/// The contents of a [`DisplaySetupSnapshot`].
pub struct SetupView {
    pub display_id: Seq<u8>,
    pub stage: DisplaySetupStage,
    pub error_code: OperationErrorCode,
    pub error: Option<Seq<char>>,
}

impl View for DisplaySetupSnapshot {
    type V = SetupView;

    open spec fn view(&self) -> SetupView {
        SetupView {
            display_id: self.display_id@,
            stage: self.stage,
            error_code: self.error_code,
            error: text_view(self.error),
        }
    }
}

/// Why a setup operation did not start.
#[derive(Debug, PartialEq, Eq)]
pub enum DisplaySetupStartError {
    InvalidOffer(String),
    Identity(String),
}

impl DisplaySetupStartError {
    /// The error as one line.
    pub open spec fn text(self) -> Seq<char> {
        match self {
            DisplaySetupStartError::InvalidOffer(error) =>
                "invalid local device-preparation offer: "@ + error@,
            DisplaySetupStartError::Identity(error) => "generate cast-display identity: "@ + error@,
        }
    }

    pub fn to_text(&self) -> (text: String)
        ensures
            text@ == self.text(),
    {
        match self {
            DisplaySetupStartError::InvalidOffer(error) => concat(
                "invalid local device-preparation offer: ",
                error.as_str(),
            ),
            DisplaySetupStartError::Identity(error) => concat(
                "generate cast-display identity: ",
                error.as_str(),
            ),
        }
    }
}

/// The first state of a setup operation, by the verdict on its offer and the
/// random bytes of its identity.
pub fn spawn_with_caller(
    offer: Result<(), String>,
    random: Result<[u8; 16], String>,
    initial_stage: DisplaySetupStage,
) -> (result: Result<DisplaySetupSnapshot, DisplaySetupStartError>)
    ensures
        match (offer, random) {
            (Err(text), _) => result == Err::<DisplaySetupSnapshot, _>(
                DisplaySetupStartError::InvalidOffer(text),
            ),
            (Ok(_), Err(text)) => result == Err::<DisplaySetupSnapshot, _>(
                DisplaySetupStartError::Identity(text),
            ),
            (Ok(_), Ok(bytes)) => result is Ok && result->Ok_0@ == (SetupView {
                display_id: marked(bytes@),
                stage: initial_stage,
                error_code: OperationErrorCode::NoError,
                error: None,
            }),
        },
{
    if let Err(text) = offer {
        return Err(DisplaySetupStartError::InvalidOffer(text));
    }
    match random {
        Err(text) => Err(DisplaySetupStartError::Identity(text)),
        Ok(bytes) => Ok(
            DisplaySetupSnapshot::new(CastDisplayId::from_random_bytes(bytes), initial_stage),
        ),
    }
}

/// The stage in which a setup ends, by its error, if it has one.
pub open spec fn final_stage(error: Option<DisplaySetupError>) -> DisplaySetupStage {
    match error {
        None => DisplaySetupStage::Added,
        Some(DisplaySetupError::Cancelled) => DisplaySetupStage::Cancelled,
        Some(DisplaySetupError::CallerExited) => DisplaySetupStage::Cancelled,
        Some(_) => DisplaySetupStage::Failed,
    }
}

/// A status with a new stage, code and error.
pub open spec fn setup_status(
    setup: SetupView,
    stage: DisplaySetupStage,
    error_code: OperationErrorCode,
    error: Option<Seq<char>>,
) -> SetupView {
    SetupView {
        stage,
        error_code,
        error: match error {
            Some(text) => Some(clip(text, MAX_OPERATION_ERROR_BYTES as nat)),
            None => None,
        },
        ..setup
    }
}

/// The status of a setup whose display is there.
pub open spec fn added_setup(setup: SetupView) -> SetupView {
    setup_status(setup, final_stage(None), OperationErrorCode::NoError, None)
}

/// The status of a setup that failed.
pub open spec fn failed_setup(
    setup: SetupView,
    error: DisplaySetupError,
    text: Seq<char>,
) -> SetupView {
    setup_status(setup, final_stage(Some(error)), setup_code(error), Some(text))
}

impl DisplaySetupSnapshot {
    pub fn new(display_id: CastDisplayId, stage: DisplaySetupStage) -> (snapshot: Self)
        ensures
            snapshot@ == (SetupView {
                display_id: display_id@,
                stage,
                error_code: OperationErrorCode::NoError,
                error: None,
            }),
    {
        DisplaySetupSnapshot { display_id, stage, error_code: OperationErrorCode::NoError, error: None }
    }

    /// Show another stage. A diagnostic is cut to its bound.
    pub fn set_status(
        &mut self,
        stage: DisplaySetupStage,
        error_code: OperationErrorCode,
        error: Option<String>,
    )
        ensures
            final(self)@ == setup_status(old(self)@, stage, error_code, text_view(error)),
    {
        self.stage = stage;
        self.error_code = error_code;
        self.error = match error {
            Some(text) => Some(bounded_text(text, MAX_OPERATION_ERROR_BYTES)),
            None => None,
        };
    }

    /// Show that the display is there.
    pub fn added(&mut self)
        ensures
            final(self)@ == added_setup(old(self)@),
            final(self)@.stage.terminal(),
    {
        self.set_status(DisplaySetupStage::Added, OperationErrorCode::NoError, None);
    }

    /// Show that the setup failed, and the text of its error.
    pub fn failed(&mut self, error: &DisplaySetupError, text: String)
        ensures
            final(self)@ == failed_setup(old(self)@, *error, text@),
            final(self)@.stage.terminal(),
    {
        let stage = match error {
            DisplaySetupError::Cancelled | DisplaySetupError::CallerExited => {
                DisplaySetupStage::Cancelled
            },
            _ => DisplaySetupStage::Failed,
        };
        self.set_status(stage, error.operation_error_code(), Some(text));
    }
}

/// What is known of the process that asked for a setup.
#[derive(Debug, Clone, Copy, PartialEq, Eq, Structural)]
pub enum CallerEnd {
    Exited,
    MonitorFailed,
    TaskFailed,
}

/// What is told of a result, given the end of the caller: that explains a setup
/// that was cancelled.
pub open spec fn told_result(
    result: Result<(), DisplaySetupError>,
    caller: Option<CallerEnd>,
) -> Result<(), DisplaySetupError> {
    match (result, caller) {
        (Err(DisplaySetupError::Cancelled), Some(CallerEnd::Exited)) => Err(
            DisplaySetupError::CallerExited,
        ),
        (Err(DisplaySetupError::Cancelled), Some(CallerEnd::MonitorFailed)) => Err(
            DisplaySetupError::CallerMonitor,
        ),
        (Err(DisplaySetupError::Cancelled), Some(CallerEnd::TaskFailed)) => Err(
            DisplaySetupError::CallerTask,
        ),
        _ => result,
    }
}

/// The result of a setup, given the end of its caller, if that came: a setup
/// that was cancelled because of it tells so.
pub fn run_display_setup(result: Result<(), DisplaySetupError>, caller: Option<CallerEnd>) -> (told: Result<
    (),
    DisplaySetupError,
>)
    ensures
        told == told_result(result, caller),
{
    let cancelled = matches!(result, Err(DisplaySetupError::Cancelled));
    match caller {
        Some(end) => {
            if cancelled {
                Err(
                    match end {
                        CallerEnd::Exited => DisplaySetupError::CallerExited,
                        CallerEnd::MonitorFailed => DisplaySetupError::CallerMonitor,
                        CallerEnd::TaskFailed => DisplaySetupError::CallerTask,
                    },
                )
            } else {
                result
            }
        },
        None => result,
    }
}

/// What a device is asked to prepare.
#[derive(Debug, PartialEq, Eq)]
pub struct PreparationRequest {
    pub candidate_modes: Vec<DisplayMode>,
    pub raw_layouts: Vec<RawVideoLayout>,
    /// The layouts of single modes, in the order of the modes.
    pub mode_raw_layouts: Vec<Vec<RawVideoLayout>>,
    pub audio_profiles: Vec<String>,
    pub requested_features: u64,
}

/// The contents of a [`PreparationRequest`].
#[verifier::ext_equal]
pub struct OfferView {
    pub candidate_modes: Seq<DisplayMode>,
    pub raw_layouts: Seq<RawVideoLayout>,
    pub mode_raw_layouts: Seq<Seq<RawVideoLayout>>,
    pub audio_profiles: Seq<Seq<char>>,
    pub requested_features: u64,
}

impl View for PreparationRequest {
    type V = OfferView;

    open spec fn view(&self) -> OfferView {
        OfferView {
            candidate_modes: self.candidate_modes@,
            raw_layouts: self.raw_layouts@,
            mode_raw_layouts: lists_view(self.mode_raw_layouts@),
            audio_profiles: texts_view(self.audio_profiles@),
            requested_features: self.requested_features,
        }
    }
}

impl Clone for PreparationRequest {
    fn clone(&self) -> (copy: Self)
        ensures
            copy@ == self@,
    {
        let mut audio_profiles: Vec<String> = Vec::new();
        let mut index: usize = 0;
        while index < self.audio_profiles.len()
            invariant
                index <= self.audio_profiles.len(),
                audio_profiles@.len() == index,
                forall|i: int|
                    0 <= i < index ==> (#[trigger] audio_profiles@[i])@ == self.audio_profiles@[i]@,
            decreases self.audio_profiles.len() - index,
        {
            audio_profiles.push(self.audio_profiles[index].clone());
            index += 1;
        }
        proof {
            assert(texts_view(audio_profiles@) =~= texts_view(self.audio_profiles@));
        }
        PreparationRequest {
            candidate_modes: copied(&self.candidate_modes),
            raw_layouts: copied(&self.raw_layouts),
            mode_raw_layouts: copied_lists(&self.mode_raw_layouts),
            audio_profiles,
            requested_features: self.requested_features,
        }
    }
}

/// The items of a list as a list of their own.
pub fn copied<T: Copy>(items: &Vec<T>) -> (copy: Vec<T>)
    ensures
        copy@ == items@,
{
    let mut copy: Vec<T> = Vec::new();
    let mut index: usize = 0;
    while index < items.len()
        invariant
            index <= items.len(),
            copy@ == items@.take(index as int),
        decreases items.len() - index,
    {
        copy.push(items[index]);
        index += 1;
        proof {
            assert(copy@ =~= items@.take(index as int));
        }
    }
    proof {
        assert(items@.take(index as int) =~= items@);
    }
    copy
}

fn copied_lists(lists: &Vec<Vec<RawVideoLayout>>) -> (copy: Vec<Vec<RawVideoLayout>>)
    ensures
        lists_view(copy@) == lists_view(lists@),
{
    let mut copy: Vec<Vec<RawVideoLayout>> = Vec::new();
    let mut index: usize = 0;
    while index < lists.len()
        invariant
            index <= lists.len(),
            copy@.len() == index,
            forall|i: int| 0 <= i < index ==> (#[trigger] copy@[i])@ == lists@[i]@,
        decreases lists.len() - index,
    {
        copy.push(copied(&lists[index]));
        index += 1;
    }
    proof {
        assert(lists_view(copy@) =~= lists_view(lists@));
    }
    copy
}

/// The offer as a kernel session can carry it.
pub open spec fn for_kernel_session(offer: OfferView) -> OfferView {
    OfferView { audio_profiles: Seq::empty(), requested_features: 0, ..offer }
}

/// The offer of a kernel session, which carries no audio.
pub fn offer_for_kernel_session(offer: PreparationRequest) -> (changed: PreparationRequest)
    ensures
        changed@ == for_kernel_session(offer@),
{
    let changed = PreparationRequest {
        candidate_modes: offer.candidate_modes,
        raw_layouts: offer.raw_layouts,
        mode_raw_layouts: offer.mode_raw_layouts,
        audio_profiles: Vec::new(),
        requested_features: 0,
    };
    proof {
        assert(texts_view(changed.audio_profiles@) =~= Seq::<Seq<char>>::empty());
    }
    changed
}

/// The offer with the layouts of the renderer, as far as they are known. One that
/// cannot be asked leaves system memory; where there is none to ask, the layouts
/// of single modes stay as they are.
pub open spec fn with_offered_layouts(
    source: CaptureSource,
    probe: Option<Result<OutputLayouts, ProbeError>>,
    offer: OfferView,
) -> OfferView {
    match source {
        CaptureSource::FinalImage => offer,
        CaptureSource::Renderer => {
            let layouts = match probe {
                None => LayoutsView {
                    mode_raw_layouts: offer.mode_raw_layouts,
                    ..without_renderer()
                },
                Some(Ok(found)) => found@,
                Some(Err(_)) => without_renderer(),
            };
            OfferView {
                raw_layouts: layouts.raw_layouts,
                mode_raw_layouts: layouts.mode_raw_layouts,
                ..offer
            }
        },
    }
}

/// Offer the layouts of the selected source.
pub fn offered_layouts(
    source: CaptureSource,
    probe: Option<Result<OutputLayouts, ProbeError>>,
    offer: PreparationRequest,
) -> (changed: PreparationRequest)
    ensures
        changed@ == with_offered_layouts(source, probe, offer@),
{
    let mut offer = offer;
    if source == CaptureSource::Renderer {
        match probe {
            None => {
                offer.raw_layouts = system_only();
            },
            Some(found) => {
                let layouts = match found {
                    Ok(layouts) => layouts,
                    Err(_) => system_only_offer(),
                };
                offer.raw_layouts = layouts.raw_layouts;
                offer.mode_raw_layouts = layouts.mode_raw_layouts;
            },
        }
    }
    offer
}

/// An operation has no error code only while it has no error, and each other code
/// tells one kind of cause.
pub proof fn codes_tell_the_cause(error: DisplaySetupError)
    ensures
        !(setup_code(error) is NoError),
        setup_code(error) is CallerExited <==> error is CallerExited,
        setup_code(error) is Cancelled <==> error is Cancelled || error
            == DisplaySetupError::KernelAttach(AttachError::Cancelled),
        setup_code(error) is CapacityExhausted <==> error == DisplaySetupError::Reserve(
            ReserveDisplaySlotError::Output(OutputReservationError::CapacityExhausted),
        ),
        setup_code(error) is DeviceAlreadyAdded <==> error == DisplaySetupError::Reserve(
            ReserveDisplaySlotError::Output(OutputReservationError::DeviceAlreadyClaimed),
        ),
        setup_code(error) is AuthorizationFailed <==> (error is KernelSession && !(
        error->KernelSession_0 is UnsupportedAudio)),
        setup_code(error) is AttachmentFailed <==> (error is KernelAttach
            && error->KernelAttach_0 is Rejected),
        error is KernelSession && error->KernelSession_0 is UnsupportedAudio ==> setup_code(
            error,
        ) is InvalidRequest,
        error is CallerMonitor || error is CallerTask || error is ReservationConsumed
            || error is KernelAccess || error is Monitor ==> setup_code(error) is Internal,
{
}

/// A device that cannot be had is told in the same way whether that was found
/// before or after an output was reserved.
pub proof fn devices_are_refused_alike(error: ResolveDeviceError)
    ensures
        setup_code(DisplaySetupError::Device(error)) == setup_code(
            DisplaySetupError::Reserve(ReserveDisplaySlotError::Device(error)),
        ),
        setup_code(DisplaySetupError::Device(error)) is InvalidRequest <==> error
            is InvalidSelection,
        setup_code(DisplaySetupError::Device(error)) is DeviceNotFound <==> error is NotFound,
        setup_code(DisplaySetupError::Device(error)) is DeviceChanged <==> error
            is StaleSelection,
        setup_code(DisplaySetupError::Device(error)) is DeviceUnavailable <==> error
            is Unavailable,
        setup_code(DisplaySetupError::Device(error)) is BackendUnavailable <==> error
            is BackendUnavailable,
        setup_code(DisplaySetupError::Device(error)) is Internal <==> error is ManagerStopped,
{
}

/// A backend's error tells whether the backend, the device or what is known of the
/// device is at fault.
pub proof fn backend_codes_tell_what_is_at_fault(error: BackendSessionError)
    ensures
        setup_code(DisplaySetupError::Backend(error)) is DeviceUnavailable <==> error
            is DeviceUnavailable,
        setup_code(DisplaySetupError::Backend(error)) is DeviceChanged <==> error
            is StaleConnectionGeneration || error is StaleDiscoveryGeneration || error
            is StalePreparationGeneration,
        setup_code(DisplaySetupError::Backend(error)) is Internal <==> error is InvalidRequest,
        setup_code(DisplaySetupError::Backend(error)) is DevicePreparationFailed <==> error
            is UnexpectedObjectPath || error is InvalidCapabilities || error
            is CapabilitiesOutsideOffer,
        setup_code(DisplaySetupError::Backend(error)) is BackendUnavailable <==> error
            is BackendUnavailable || error is SupervisorStopped || error is MonitorStopped || error
            is MethodTimeout || error is Protocol || error is InvalidStatistics || error
            is StaleStatisticsGeneration || error is InvalidControlCompletion || error
            is ControlFailed || error is ControlCompletionStreamClosed,
{
}

/// A failed preparation tells a device that is gone, and a record that was not
/// sound to begin with; all else is a failed preparation.
pub proof fn preparation_codes_tell_what_is_at_fault(error: PrepareCastDeviceError)
    ensures
        setup_code(DisplaySetupError::Prepare(error)) is DeviceUnavailable <==> error
            is DeviceUnavailable,
        setup_code(DisplaySetupError::Prepare(error)) is Internal <==> error is InvalidDevice,
        !(error is DeviceUnavailable) && !(error is InvalidDevice) ==> setup_code(
            DisplaySetupError::Prepare(error),
        ) is DevicePreparationFailed,
{
}

/// Every operation ends: as added without an error, as cancelled where its caller
/// or somebody else gave it up, and as failed otherwise. It stays about the same
/// display, and tells its error, at most 512 bytes of it.
pub proof fn setups_end_as_their_error_tells(
    setup: SetupView,
    error: DisplaySetupError,
    text: Seq<char>,
)
    ensures
        added_setup(setup).stage is Added,
        added_setup(setup).error_code is NoError,
        added_setup(setup).error is None,
        added_setup(setup).display_id == setup.display_id,
        failed_setup(setup, error, text).stage is Cancelled <==> error is Cancelled || error
            is CallerExited,
        !(error is Cancelled) && !(error is CallerExited) ==> failed_setup(
            setup,
            error,
            text,
        ).stage is Failed,
        failed_setup(setup, error, text).error_code == setup_code(error),
        failed_setup(setup, error, text).display_id == setup.display_id,
        failed_setup(setup, error, text).error is Some,
        failed_setup(setup, error, text).error->0.is_prefix_of(text),
        vstd::utf8::encode_utf8(failed_setup(setup, error, text).error->0).len() <= 512,
        vstd::utf8::encode_utf8(text).len() <= 512 ==> failed_setup(setup, error, text).error->0
            == text,
{
    crate::text::clip_is_the_longest_fitting_prefix(text, 512);
}

/// A new status says what it was set to, about the same display.
pub proof fn statuses_say_what_they_were_set_to(
    setup: SetupView,
    stage: DisplaySetupStage,
    error_code: OperationErrorCode,
    error: Option<Seq<char>>,
)
    ensures
        setup_status(setup, stage, error_code, error).display_id == setup.display_id,
        setup_status(setup, stage, error_code, error).stage == stage,
        setup_status(setup, stage, error_code, error).error_code == error_code,
        setup_status(setup, stage, error_code, error).error is Some <==> error is Some,
        error is Some ==> setup_status(setup, stage, error_code, error).error->0.is_prefix_of(
            error->0,
        ),
        error is Some && vstd::utf8::encode_utf8(error->0).len() <= 512 ==> setup_status(
            setup,
            stage,
            error_code,
            error,
        ).error == error,
{
    if error is Some {
        crate::text::clip_is_the_longest_fitting_prefix(error->0, 512);
    }
}

/// The end of the caller explains a cancelled setup, and changes no other result.
pub proof fn callers_explain_cancelled_setups(
    result: Result<(), DisplaySetupError>,
    caller: Option<CallerEnd>,
)
    ensures
        told_result(result, None) == result,
        told_result(result, caller) is Ok <==> result is Ok,
        result != Err::<(), DisplaySetupError>(DisplaySetupError::Cancelled) ==> told_result(
            result,
            caller,
        ) == result,
        result == Err::<(), DisplaySetupError>(DisplaySetupError::Cancelled) && caller is Some ==> {
            &&& told_result(result, caller) is Err
            &&& caller->0 is Exited <==> told_result(result, caller)->Err_0 is CallerExited
            &&& caller->0 is MonitorFailed <==> told_result(result, caller)->Err_0 is CallerMonitor
            &&& caller->0 is TaskFailed <==> told_result(result, caller)->Err_0 is CallerTask
        },
{
}

/// A kernel session carries no audio and no further features; the picture is
/// offered as before.
pub proof fn kernel_sessions_offer_the_picture_alone(offer: OfferView)
    ensures
        for_kernel_session(offer).audio_profiles.len() == 0,
        for_kernel_session(offer).requested_features == 0,
        for_kernel_session(offer).candidate_modes == offer.candidate_modes,
        for_kernel_session(offer).raw_layouts == offer.raw_layouts,
        for_kernel_session(offer).mode_raw_layouts == offer.mode_raw_layouts,
        for_kernel_session(for_kernel_session(offer)) == for_kernel_session(offer),
{
}

/// The layouts of an offer are those that its source can deliver: of a renderer
/// what it was found to have, or one layout in system memory; the final image has
/// what was asked for. Modes, audio and features are not the renderer's.
pub proof fn offers_have_the_layouts_of_their_source(
    source: CaptureSource,
    probe: Option<Result<OutputLayouts, ProbeError>>,
    offer: OfferView,
)
    ensures
        with_offered_layouts(source, probe, offer).candidate_modes == offer.candidate_modes,
        with_offered_layouts(source, probe, offer).audio_profiles == offer.audio_profiles,
        with_offered_layouts(source, probe, offer).requested_features == offer.requested_features,
        source is FinalImage ==> with_offered_layouts(source, probe, offer) == offer,
        source is Renderer && probe is Some && probe->0 is Ok ==> {
            let found = probe->0->Ok_0;
            let changed = with_offered_layouts(source, probe, offer);
            &&& changed.raw_layouts == found.raw_layouts@
            &&& changed.mode_raw_layouts.len() == found.mode_raw_layouts@.len()
            &&& forall|i: int|
                0 <= i < found.mode_raw_layouts@.len() ==> #[trigger] changed.mode_raw_layouts[i]
                    == found.mode_raw_layouts@[i]@
        },
        source is Renderer && !(probe is Some && probe->0 is Ok) ==> with_offered_layouts(
            source,
            probe,
            offer,
        ).raw_layouts.len() == 1,
        source is Renderer && probe is None ==> with_offered_layouts(source, probe, offer)
            .mode_raw_layouts == offer.mode_raw_layouts,
        source is Renderer && probe is Some && probe->0 is Err ==> with_offered_layouts(
            source,
            probe,
            offer,
        ).mode_raw_layouts.len() == 0,
{
}

/// The text of an error ends in its cause, where it has one.
pub proof fn texts_end_in_the_cause(error: DisplaySetupError, cause: Seq<char>)
    ensures
        error is CallerMonitor || error is CallerTask || error is Backend || error is Prepare
            || error is KernelAccess ==> error.text(cause).len() >= cause.len() && error.text(
            cause,
        ).skip(error.text(cause).len() - cause.len()) == cause,
        error is Reserve ==> error.text(cause).skip(
            error.text(cause).len() - error->Reserve_0.text(cause).len(),
        ) == error->Reserve_0.text(cause),
        error is Device ==> error.text(cause).skip(
            error.text(cause).len() - error->Device_0.text().len(),
        ) == error->Device_0.text(),
        error is KernelSession ==> error.text(cause).skip(
            error.text(cause).len() - error->KernelSession_0.text().len(),
        ) == error->KernelSession_0.text(),
        error is KernelAttach ==> error.text(cause).skip(
            error.text(cause).len() - error->KernelAttach_0.text().len(),
        ) == error->KernelAttach_0.text(),
        error is Monitor ==> error.text(cause).skip(
            error.text(cause).len() - error->Monitor_0@.len(),
        ) == error->Monitor_0@,
        DisplaySetupOperationError::Setup(error).text(cause).skip(
            DisplaySetupOperationError::Setup(error).text(cause).len() - error.text(cause).len(),
        ) == error.text(cause),
{
    let text = error.text(cause);
    let inner = match error {
        DisplaySetupError::Reserve(error) => error.text(cause),
        DisplaySetupError::Device(error) => error.text(),
        DisplaySetupError::KernelSession(error) => error.text(),
        DisplaySetupError::KernelAttach(error) => error.text(),
        DisplaySetupError::Monitor(error) => error@,
        _ => cause,
    };
    if !(error is Cancelled || error is CallerExited || error is ReservationConsumed) {
        assert(text.skip(text.len() - inner.len()) =~= inner);
    }
    let whole = DisplaySetupOperationError::Setup(error).text(cause);
    assert(whole.skip(whole.len() - text.len()) =~= text);
}

/// A status shows all of its parts, and an offer all that it holds, list by list.
pub proof fn setups_show_what_they_hold(
    snapshot: DisplaySetupSnapshot,
    offer: PreparationRequest,
    i: int,
)
    ensures
        snapshot@.display_id == snapshot.display_id.bytes@,
        snapshot@.stage == snapshot.stage,
        snapshot@.error_code == snapshot.error_code,
        snapshot@.error is Some <==> snapshot.error is Some,
        snapshot.error is Some ==> snapshot@.error->0 == snapshot.error->0@,
        offer@.candidate_modes == offer.candidate_modes@,
        offer@.raw_layouts == offer.raw_layouts@,
        offer@.requested_features == offer.requested_features,
        offer@.mode_raw_layouts.len() == offer.mode_raw_layouts@.len(),
        0 <= i < offer.mode_raw_layouts@.len() ==> offer@.mode_raw_layouts[i]
            == offer.mode_raw_layouts@[i]@,
        offer@.audio_profiles.len() == offer.audio_profiles@.len(),
        0 <= i < offer.audio_profiles@.len() ==> offer@.audio_profiles[i]
            == offer.audio_profiles@[i]@,
{
}

/// The text of a failed setup begins with the words of its kind.
pub proof fn setup_failures_say_their_kind(value: DisplaySetupError, cause: Seq<char>)
    ensures
        value is Cancelled ==> "display setup was cancelled"@.is_prefix_of(value.text(cause)),
        value is CallerExited ==> "display-setup caller exited"@.is_prefix_of(value.text(cause)),
        value is CallerMonitor ==> "wait for display-setup caller exit: "@.is_prefix_of(
            value.text(cause),
        ),
        value is CallerTask ==> "caller monitor task failed: "@.is_prefix_of(value.text(cause)),
        value is ReservationConsumed ==> "pending display reservation was already consumed"@.is_prefix_of(value.text(cause)),
        value is Reserve ==> "reserve a CastKMS output for the selected Device: "@.is_prefix_of(
            value.text(cause),
        ),
        value is Device ==> "selected Device changed during display setup: "@.is_prefix_of(
            value.text(cause),
        ),
        value is KernelSession ==> "acquire kernel display session: "@.is_prefix_of(
            value.text(cause),
        ),
        value is Backend ==> "backend display session failed: "@.is_prefix_of(value.text(cause)),
        value is Prepare ==> "prepare selected Device identity and EDID: "@.is_prefix_of(
            value.text(cause),
        ),
        value is KernelAccess ==> "derive kernel access: "@.is_prefix_of(value.text(cause)),
        value is KernelAttach ==> "attach selected Device through monitor control: "@.is_prefix_of(
            value.text(cause),
        ),
        value is Monitor ==> "start CastKMS display monitor: "@.is_prefix_of(value.text(cause)),
{
    let text = value.text(cause);
    if value is Cancelled {
        assert("display setup was cancelled"@ =~= text.subrange(
            0,
            "display setup was cancelled"@.len() as int,
        ));
    }
    if value is CallerExited {
        assert("display-setup caller exited"@ =~= text.subrange(
            0,
            "display-setup caller exited"@.len() as int,
        ));
    }
    if value is CallerMonitor {
        assert("wait for display-setup caller exit: "@ =~= text.subrange(
            0,
            "wait for display-setup caller exit: "@.len() as int,
        ));
    }
    if value is CallerTask {
        assert("caller monitor task failed: "@ =~= text.subrange(
            0,
            "caller monitor task failed: "@.len() as int,
        ));
    }
    if value is ReservationConsumed {
        assert("pending display reservation was already consumed"@ =~= text.subrange(
            0,
            "pending display reservation was already consumed"@.len() as int,
        ));
    }
    if value is Reserve {
        assert("reserve a CastKMS output for the selected Device: "@ =~= text.subrange(
            0,
            "reserve a CastKMS output for the selected Device: "@.len() as int,
        ));
    }
    if value is Device {
        assert("selected Device changed during display setup: "@ =~= text.subrange(
            0,
            "selected Device changed during display setup: "@.len() as int,
        ));
    }
    if value is KernelSession {
        assert("acquire kernel display session: "@ =~= text.subrange(
            0,
            "acquire kernel display session: "@.len() as int,
        ));
    }
    if value is Backend {
        assert("backend display session failed: "@ =~= text.subrange(
            0,
            "backend display session failed: "@.len() as int,
        ));
    }
    if value is Prepare {
        assert("prepare selected Device identity and EDID: "@ =~= text.subrange(
            0,
            "prepare selected Device identity and EDID: "@.len() as int,
        ));
    }
    if value is KernelAccess {
        assert("derive kernel access: "@ =~= text.subrange(
            0,
            "derive kernel access: "@.len() as int,
        ));
    }
    if value is KernelAttach {
        assert("attach selected Device through monitor control: "@ =~= text.subrange(
            0,
            "attach selected Device through monitor control: "@.len() as int,
        ));
    }
    if value is Monitor {
        assert("start CastKMS display monitor: "@ =~= text.subrange(
            0,
            "start CastKMS display monitor: "@.len() as int,
        ));
    }
}

/// The text of a failed operation begins with the words of its kind.
pub proof fn operation_failures_say_their_kind(value: DisplaySetupOperationError, cause: Seq<char>)
    ensures
        value is AlreadyFinished ==> "display setup operation was already finished"@.is_prefix_of(
            value.text(cause),
        ),
        value is Task ==> "display setup task failed: "@.is_prefix_of(value.text(cause)),
        value is Setup ==> "display setup failed: "@.is_prefix_of(value.text(cause)),
{
    let text = value.text(cause);
    if value is AlreadyFinished {
        assert("display setup operation was already finished"@ =~= text.subrange(
            0,
            "display setup operation was already finished"@.len() as int,
        ));
    }
    if value is Task {
        assert("display setup task failed: "@ =~= text.subrange(
            0,
            "display setup task failed: "@.len() as int,
        ));
    }
    if value is Setup {
        assert("display setup failed: "@ =~= text.subrange(
            0,
            "display setup failed: "@.len() as int,
        ));
    }
}

/// The text of a setup that could not be begun begins with the words of its kind.
pub proof fn setup_refusals_say_their_kind(value: DisplaySetupStartError)
    ensures
        value is InvalidOffer ==> "invalid local device-preparation offer: "@.is_prefix_of(
            value.text(),
        ),
        value is Identity ==> "generate cast-display identity: "@.is_prefix_of(value.text()),
{
    let text = value.text();
    if value is InvalidOffer {
        assert("invalid local device-preparation offer: "@ =~= text.subrange(
            0,
            "invalid local device-preparation offer: "@.len() as int,
        ));
    }
    if value is Identity {
        assert("generate cast-display identity: "@ =~= text.subrange(
            0,
            "generate cast-display identity: "@.len() as int,
        ));
    }
}

} // verus!
