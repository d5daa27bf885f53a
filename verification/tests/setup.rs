use pronk::capability_lease::{CapabilityLease, LeaseReport, LeaseState};
use pronk::capture_health::{CaptureMonitor, HealthSignal};
use pronk::capture_output_layouts::{
    OutputLayouts, ProbeError, ProbeErrorKind, RawVideoLayout, FOURCC_AR24, FOURCC_XR24,
};
use pronk::cast_display_slot::CastDisplaySlotError;
use pronk::device_recovery::{DeviceSessionFactoryError, DeviceSessionRecoveryError};
use pronk::device_session::DisplayMode;
use pronk::display::sequence::{
    AcceptedCapabilities, DisplaySetup, SetupAction, SetupCleanup, SetupContext, SetupFailure,
    SetupProgress, SetupReply,
};
use pronk::display::session_factory::{
    FactoryAction, FactoryPhase, FactoryProgress, FactoryReply, Replacement, SessionFactory,
};
use pronk::display::setup::{
    offer_for_kernel_session, offered_layouts, run_display_setup, spawn_with_caller,
    BackendSessionError, CallerEnd, DisplaySetupError, DisplaySetupSnapshot,
    DisplaySetupStartError, OperationErrorCode, PreparationRequest, PrepareCastDeviceError,
};
use pronk::display::{
    CastDisplayId, DisplaySetupStage, MediaRuntime, MAX_OPERATION_ERROR_BYTES,
};
use pronk::display_media::{CaptureSource, PipelinePlan};
use pronk::kernel_display::{AttachError, EdidMode};
use pronk::kernel_display_port::KernelDisplayEvent;
use pronk::kernel_display_with_capture::{CaptureEvent, KernelDisplayWithCapture};
use pronk::kernel_session::KernelSessionError;
use pronk::manager::{
    OutputReservationError, RemoveManagedDisplayError, ReserveDisplaySlotError,
    ResolveDeviceError, StartDisplaySetupError,
};
use pronk::nonzero::NonZeroU64;
use pronk::os_error::OsError;
use pronk::output::{CastKmsOutput, CastKmsOutputId, OutputConnection};
use pronk::preparation::{IdentitySource, PnpResolutionSource, PreparedCastDevice};
use pronk::protocol::{DeviceAvailability, DeviceInfo};

fn device() -> DeviceInfo {
    DeviceInfo {
        backend_id: "mock".into(),
        device_id: "tv".into(),
        display_name: "Living room".into(),
        availability: DeviceAvailability::Available,
        connection_generation: 1,
        discovery_generation: 2,
        device_revision: 7,
        metadata: Vec::new(),
    }
}

fn output() -> CastKmsOutput {
    CastKmsOutput {
        id: CastKmsOutputId {
            device_path: "/sys/devices/castkms".into(),
            output_index: 3,
        },
        node_path: "/dev/dri/card0".into(),
        device_major: 226,
        device_minor: 0,
        crtc_id: 41,
        connector_id: 42,
        connector_name: "Virtual-1".into(),
        connection: OutputConnection::Disconnected,
    }
}

fn prepared() -> PreparedCastDevice {
    PreparedCastDevice {
        manufacturer_name: None,
        manufacturer_source: IdentitySource::Absent,
        product_name: Some("TV".into()),
        product_source: IdentitySource::AuthenticatedDeviceInfo,
        pnp_id: "PRK".into(),
        pnp_source: PnpResolutionSource::SynthesizerFallback,
        product_code: 1,
        serial: 2,
        audio_enabled: false,
    }
}

fn offer() -> PreparationRequest {
    PreparationRequest {
        candidate_modes: vec![DisplayMode {
            width: 1920,
            height: 1080,
            refresh_millihz: 60_000,
            flags: 0,
        }],
        raw_layouts: vec![RawVideoLayout::system_memory(FOURCC_AR24)],
        mode_raw_layouts: vec![vec![RawVideoLayout::system_memory(FOURCC_AR24)]],
        audio_profiles: vec!["opus".into()],
        requested_features: 1,
    }
}

fn context(source: CaptureSource) -> SetupContext {
    SetupContext {
        display_id: CastDisplayId::from_random_bytes([9; 16]),
        media_runtime: MediaRuntime::new("/run/media".into(), 1000).with_capture_source(source),
        audio_enabled: true,
    }
}

fn accepted() -> AcceptedCapabilities {
    AcceptedCapabilities {
        prepared: prepared(),
        video_profile_id: "h264".into(),
        raw_layouts: vec![RawVideoLayout::dma_buf(FOURCC_AR24, 5)],
        modes: vec![EdidMode {
            width: 1920,
            height: 1080,
            refresh_millihz: 60_000,
        }],
    }
}

fn next(progress: SetupProgress) -> (DisplaySetup, SetupAction, Option<DisplaySetupStage>) {
    match progress {
        SetupProgress::Next {
            setup,
            action,
            shown,
        } => (setup, action, shown),
        other => panic!("the setup does not go on: {other:?}"),
    }
}

fn failure(progress: SetupProgress) -> SetupFailure {
    match progress {
        SetupProgress::Failed(failure) => failure,
        other => panic!("the setup does not fail: {other:?}"),
    }
}

fn probed() -> OutputLayouts {
    OutputLayouts {
        raw_layouts: vec![RawVideoLayout::dma_buf(FOURCC_AR24, 5)],
        mode_raw_layouts: vec![vec![
            RawVideoLayout::dma_buf(FOURCC_AR24, 5),
            RawVideoLayout::dma_buf(FOURCC_AR24, 6),
        ]],
    }
}

/// The successful answers of a setup that probes its renderer.
fn answers() -> Vec<SetupReply> {
    vec![
        SetupReply::Reserved(Ok((device(), output()))),
        SetupReply::KernelSession(Ok(Some("/dev/dri/renderD128".into()))),
        SetupReply::Probed(Ok(probed())),
        SetupReply::Revalidated(Ok(())),
        SetupReply::SessionCreated(Ok(())),
        SetupReply::Prepared(Ok(())),
        SetupReply::Accepted(Ok(accepted())),
        SetupReply::LayoutSelected(Ok(RawVideoLayout::dma_buf(FOURCC_AR24, 5))),
        SetupReply::Revalidated(Ok(())),
        SetupReply::MonitorStarted(Ok(())),
        SetupReply::Attached(Ok(())),
        SetupReply::AccessTaken(Ok(())),
        SetupReply::SocketsFound(Ok(())),
        SetupReply::PipelineOpened(Ok(())),
    ]
}

/// A setup after so many successful answers.
fn setup_after(count: usize) -> DisplaySetup {
    let (mut setup, _) = DisplaySetup::pending(context(CaptureSource::Renderer), offer());
    for reply in answers().into_iter().take(count) {
        setup = next(setup.proceed(reply, false)).0;
    }
    setup
}

#[test]
fn a_setup_runs_through_its_steps_and_stages() {
    let session_id = "09090909-0909-4909-8909-090909090909";
    let (mut setup, action) = DisplaySetup::pending(context(CaptureSource::Renderer), offer());
    assert!(matches!(action, SetupAction::Reserve));
    let mut actions = Vec::new();
    let mut stages = Vec::new();
    let mut replies = answers();
    let last = replies.pop().unwrap();
    for reply in replies {
        let (following, action, shown) = next(setup.proceed(reply, false));
        setup = following;
        actions.push(action);
        stages.extend(shown);
    }
    assert_eq!(
        stages,
        vec![
            DisplaySetupStage::Authorizing,
            DisplaySetupStage::PreparingDevice,
            DisplaySetupStage::Attaching,
        ]
    );
    assert!(matches!(
        &actions[0],
        SetupAction::AcquireKernelSession { output: asked, audio_enabled: true }
            if *asked == output()
    ));
    assert!(matches!(
        &actions[1],
        SetupAction::ProbeLayouts { render_node, modes }
            if render_node == "/dev/dri/renderD128" && modes.len() == 1
    ));
    assert!(matches!(actions[2], SetupAction::Revalidate));
    assert!(matches!(
        &actions[3],
        SetupAction::CreateSession { session_id: asked, session_generation: 1, requested_features: 0 }
            if asked == session_id
    ));
    assert!(matches!(
        &actions[4],
        SetupAction::Prepare { offer }
            if offer.audio_profiles.is_empty()
                && offer.requested_features == 0
                && offer.raw_layouts == probed().raw_layouts
                && offer.mode_raw_layouts == probed().mode_raw_layouts
    ));
    assert!(matches!(
        &actions[5],
        SetupAction::AcceptCapabilities { device: judged, audio_enabled: false }
            if *judged == device()
    ));
    assert!(matches!(&actions[6], SetupAction::SelectLayout { .. }));
    assert!(matches!(actions[7], SetupAction::Revalidate));
    assert!(matches!(actions[8], SetupAction::StartMonitor));
    assert!(matches!(
        &actions[9],
        SetupAction::Attach { config } if config.crtc_id.get() == 41 && config.modes.len() == 1
    ));
    assert!(matches!(
        actions[10],
        SetupAction::TakeMediaAccess { source: CaptureSource::Renderer }
    ));
    assert!(matches!(
        &actions[11],
        SetupAction::FindSockets { directory, server_uid: 1000 } if directory == "/run/media"
    ));
    match &actions[12] {
        SetupAction::OpenPipeline {
            plan: PipelinePlan::Renderer(config),
            raw_layout,
        } => {
            assert_eq!(*raw_layout, RawVideoLayout::dma_buf(FOURCC_AR24, 5));
            assert_eq!(config.connector_id.get(), 42);
            assert_eq!(config.output_index, 3);
            assert_eq!(config.session_id, session_id);
            assert_eq!(
                config.device_instance,
                "cast-display-09090909090949098909090909090909"
            );
            assert_eq!(config.node_description, "Living room");
            assert_eq!(config.video_profile_id, "h264");
            assert_eq!(config.video_bitrate.get(), 8_000_000);
            assert_eq!(config.capture_rate_hz.get(), 30);
        }
        other => panic!("another pipeline: {other:?}"),
    }
    match setup.proceed(last, true) {
        SetupProgress::Added(added) => {
            assert_eq!(added.display.device, device());
            assert_eq!(added.display.state_revision, 7);
            assert_eq!(added.output, output());
            assert_eq!(added.prepared, prepared());
            assert_eq!(added.initial_session_generation.get(), 1);
            assert_eq!(added.recovery_factory.session_id, session_id);
        }
        other => panic!("the display is not added: {other:?}"),
    }
}

#[test]
fn a_failed_setup_takes_down_what_it_made() {
    let ended = failure(
        setup_after(13).proceed(SetupReply::PipelineOpened(Err("no GPU".into())), false),
    );
    assert_eq!(
        ended.error,
        DisplaySetupError::Monitor("open selected capture pipeline: no GPU".into())
    );
    assert_eq!(
        ended.cleanup,
        vec![SetupCleanup::StopBackend, SetupCleanup::DetachKernel]
    );
    let ended = failure(
        setup_after(12).proceed(SetupReply::SocketsFound(Err("too long".into())), false),
    );
    assert_eq!(
        ended.error,
        DisplaySetupError::Monitor("construct classified PipeWire paths: too long".into())
    );
    assert_eq!(
        ended.cleanup,
        vec![SetupCleanup::StopBackend, SetupCleanup::CleanUpAttached]
    );
    let ended = failure(setup_after(11).proceed(SetupReply::AccessTaken(Ok(())), true));
    assert_eq!(ended.error, DisplaySetupError::Cancelled);
    assert_eq!(
        ended.cleanup,
        vec![SetupCleanup::StopBackend, SetupCleanup::CleanUpAttached]
    );
    let ended = failure(
        setup_after(11).proceed(SetupReply::AccessTaken(Err("no access".into())), false),
    );
    assert_eq!(ended.error, DisplaySetupError::KernelAccess);
    assert_eq!(
        ended.cleanup,
        vec![SetupCleanup::DetachKernel, SetupCleanup::StopBackend]
    );
    let ended = failure(
        setup_after(10).proceed(SetupReply::Attached(Err(AttachError::Cancelled)), false),
    );
    assert_eq!(ended.error, DisplaySetupError::Cancelled);
    assert_eq!(ended.cleanup, vec![SetupCleanup::StopBackend]);
    let ended = failure(setup_after(4).proceed(SetupReply::Interrupted, true));
    assert_eq!(ended.error, DisplaySetupError::Cancelled);
    assert_eq!(ended.cleanup, vec![SetupCleanup::StopPendingSession]);
    let ended = failure(setup_after(4).proceed(
        SetupReply::SessionCreated(Err(BackendSessionError::BackendUnavailable)),
        false,
    ));
    assert_eq!(
        ended.error,
        DisplaySetupError::Backend(BackendSessionError::BackendUnavailable)
    );
    assert!(ended.cleanup.is_empty());
    let ended = failure(setup_after(0).proceed(
        SetupReply::Reserved(Err(ReserveDisplaySlotError::Output(
            OutputReservationError::CapacityExhausted,
        ))),
        false,
    ));
    assert!(ended.cleanup.is_empty());
}

#[test]
fn an_output_without_a_controller_is_not_attached() {
    let (setup, _) = DisplaySetup::pending(context(CaptureSource::Renderer), offer());
    let mut without = output();
    without.crtc_id = 0;
    let mut setup = next(setup.proceed(SetupReply::Reserved(Ok((device(), without))), false)).0;
    for reply in answers().into_iter().skip(1).take(8) {
        setup = next(setup.proceed(reply, false)).0;
    }
    let ended = failure(setup.proceed(SetupReply::MonitorStarted(Ok(())), false));
    assert_eq!(
        ended.error,
        DisplaySetupError::Monitor("reserved CastKMS output has a zero CRTC ID".into())
    );
    assert_eq!(ended.cleanup, vec![SetupCleanup::StopBackend]);
}

#[test]
fn final_images_need_no_probe() {
    let started = DisplaySetup::ready(
        context(CaptureSource::FinalImage),
        offer(),
        device(),
        output(),
        false,
    );
    let (setup, action, shown) = next(started);
    assert!(matches!(action, SetupAction::AcquireKernelSession { .. }));
    assert_eq!(shown, None);
    let reply = SetupReply::KernelSession(Ok(Some("/dev/dri/renderD128".into())));
    let (setup, action, _) = next(setup.proceed(reply, false));
    assert!(matches!(action, SetupAction::Revalidate));
    let (setup, _, _) = next(setup.proceed(SetupReply::Revalidated(Ok(())), false));
    let (_, action, _) = next(setup.proceed(SetupReply::SessionCreated(Ok(())), false));
    assert!(matches!(
        action,
        SetupAction::Prepare { offer }
            if offer.raw_layouts == vec![RawVideoLayout::system_memory(FOURCC_AR24)]
    ));
    let ended = failure(DisplaySetup::ready(
        context(CaptureSource::FinalImage),
        offer(),
        device(),
        output(),
        true,
    ));
    assert_eq!(ended.error, DisplaySetupError::Cancelled);
}

#[test]
fn replacement_sessions_are_made_step_by_step() {
    let factory = SessionFactory {
        session_id: "session".into(),
        offer: offer(),
        audio_enabled: false,
    };
    let generation = NonZeroU64::new(4).unwrap();
    let (mut replacement, action) = factory.create_prepared_session(device(), generation);
    assert!(matches!(action, FactoryAction::Resolve { .. }));
    let mut actions = Vec::new();
    for reply in [
        FactoryReply::Done(Ok(())),
        FactoryReply::Done(Ok(())),
        FactoryReply::Done(Ok(())),
        FactoryReply::Validated(Ok(prepared())),
    ] {
        match factory.proceed(replacement, reply, false) {
            FactoryProgress::Next {
                replacement: following,
                action,
            } => {
                replacement = following;
                actions.push(action);
            }
            other => panic!("the replacement does not go on: {other:?}"),
        }
    }
    assert!(matches!(
        &actions[0],
        FactoryAction::CreateSession { session_id, session_generation: 4, requested_features: 1 }
            if session_id == "session"
    ));
    assert!(matches!(&actions[1], FactoryAction::Prepare { offer: asked } if *asked == offer()));
    assert!(matches!(
        &actions[2],
        FactoryAction::Validate { device: judged, audio_enabled: false } if *judged == device()
    ));
    assert!(matches!(actions[3], FactoryAction::StartMonitor));
    assert!(matches!(
        factory.proceed(replacement, FactoryReply::Done(Ok(())), false),
        FactoryProgress::Ready { prepared: made, session_generation }
            if made == prepared() && session_generation == generation
    ));
}

#[test]
fn failed_replacements_are_explained() {
    let factory = SessionFactory {
        session_id: "session".into(),
        offer: offer(),
        audio_enabled: false,
    };
    let at = |phase| Replacement {
        device: device(),
        session_generation: NonZeroU64::new(4).unwrap(),
        phase,
        prepared: None,
    };
    for (phase, text, cleanup) in [
        (FactoryPhase::Resolving, "resolve current Device: gone", None),
        (
            FactoryPhase::CreatingSession,
            "create replacement Device session: gone",
            None,
        ),
        (
            FactoryPhase::Preparing,
            "prepare replacement Device session: gone",
            Some(SetupCleanup::StopBackend),
        ),
    ] {
        match factory.proceed(at(phase), FactoryReply::Done(Err("gone".into())), false) {
            FactoryProgress::Failed(ended) => {
                assert_eq!(ended.error, DeviceSessionFactoryError::Failed(text.into()));
                assert_eq!(ended.cleanup, cleanup);
            }
            other => panic!("the replacement does not fail: {other:?}"),
        }
    }
    match factory.proceed(
        at(FactoryPhase::CreatingSession),
        FactoryReply::Interrupted,
        true,
    ) {
        FactoryProgress::Failed(ended) => {
            assert_eq!(ended.error, DeviceSessionFactoryError::Cancelled);
            assert_eq!(ended.cleanup, Some(SetupCleanup::StopPendingSession));
        }
        other => panic!("the replacement does not fail: {other:?}"),
    }
}

#[test]
fn errors_have_public_codes() {
    for (error, code) in [
        (DisplaySetupError::Cancelled, OperationErrorCode::Cancelled),
        (
            DisplaySetupError::CallerExited,
            OperationErrorCode::CallerExited,
        ),
        (
            DisplaySetupError::Reserve(ReserveDisplaySlotError::Output(
                OutputReservationError::CapacityExhausted,
            )),
            OperationErrorCode::CapacityExhausted,
        ),
        (
            DisplaySetupError::Device(ResolveDeviceError::NotFound {
                backend_id: "mock".into(),
                device_id: "tv".into(),
            }),
            OperationErrorCode::DeviceNotFound,
        ),
        (
            DisplaySetupError::KernelSession(KernelSessionError::Timeout),
            OperationErrorCode::AuthorizationFailed,
        ),
        (
            DisplaySetupError::Backend(BackendSessionError::DeviceUnavailable),
            OperationErrorCode::DeviceUnavailable,
        ),
        (
            DisplaySetupError::Prepare(PrepareCastDeviceError::NoSupportedMode),
            OperationErrorCode::DevicePreparationFailed,
        ),
        (
            DisplaySetupError::KernelAttach(AttachError::Worker("panicked".into())),
            OperationErrorCode::Internal,
        ),
        (
            DisplaySetupError::KernelAttach(AttachError::Rejected(OsError {
                code: Some(5),
                text: "no monitor".into(),
            })),
            OperationErrorCode::AttachmentFailed,
        ),
        (
            DisplaySetupError::KernelAttach(AttachError::Cancelled),
            OperationErrorCode::Cancelled,
        ),
    ] {
        assert_eq!(error.operation_error_code(), code);
    }
}

#[test]
fn the_end_of_a_setup_is_shown() {
    let mut snapshot = DisplaySetupSnapshot::new(
        CastDisplayId::from_random_bytes([1; 16]),
        DisplaySetupStage::Validating,
    );
    snapshot.failed(&DisplaySetupError::Cancelled, "cancelled".into());
    assert_eq!(snapshot.stage, DisplaySetupStage::Cancelled);
    snapshot.failed(
        &DisplaySetupError::KernelAccess,
        "x".repeat(MAX_OPERATION_ERROR_BYTES + 5),
    );
    assert_eq!(snapshot.stage, DisplaySetupStage::Failed);
    assert_eq!(snapshot.error.as_ref().unwrap().len(), MAX_OPERATION_ERROR_BYTES);
    snapshot.added();
    assert_eq!(snapshot.stage, DisplaySetupStage::Added);
    assert_eq!(snapshot.error, None);
}

#[test]
fn a_setup_starts_with_a_valid_offer_and_an_identity() {
    let snapshot = spawn_with_caller(Ok(()), Ok([9; 16]), DisplaySetupStage::Validating).unwrap();
    assert_eq!(
        snapshot.display_id,
        CastDisplayId::from_random_bytes([9; 16])
    );
    assert_eq!(
        spawn_with_caller(
            Err("no profile".into()),
            Ok([9; 16]),
            DisplaySetupStage::Validating
        )
        .unwrap_err()
        .to_text(),
        "invalid local device-preparation offer: no profile"
    );
    assert_eq!(
        spawn_with_caller(
            Ok(()),
            Err("no entropy".into()),
            DisplaySetupStage::Validating
        ),
        Err(DisplaySetupStartError::Identity("no entropy".into()))
    );
}

#[test]
fn a_caller_that_exits_ends_its_setup() {
    assert_eq!(run_display_setup(Ok(()), None), Ok(()));
    assert_eq!(
        run_display_setup(Err(DisplaySetupError::Cancelled), Some(CallerEnd::Exited)),
        Err(DisplaySetupError::CallerExited)
    );
}

#[test]
fn outside_failures_keep_their_meaning() {
    assert_eq!(
        failure(setup_after(1).proceed(
            SetupReply::KernelSession(Err(KernelSessionError::Cancelled)),
            false
        ))
        .error,
        DisplaySetupError::Cancelled
    );
    assert_eq!(
        failure(setup_after(1).proceed(
            SetupReply::KernelSession(Err(KernelSessionError::Unavailable)),
            false
        ))
        .error,
        DisplaySetupError::KernelSession(KernelSessionError::Unavailable)
    );
    assert_eq!(
        failure(setup_after(10).proceed(
            SetupReply::Attached(Err(AttachError::Worker("panicked".into()))),
            false
        ))
        .error,
        DisplaySetupError::KernelAttach(AttachError::Worker("panicked".into()))
    );
}

#[test]
fn layouts_are_offered_by_the_selected_source() {
    let system = vec![RawVideoLayout::system_memory(FOURCC_XR24)];
    let kept = offered_layouts(CaptureSource::FinalImage, Some(Ok(probed())), offer());
    assert_eq!(kept, offer());
    let found = offered_layouts(CaptureSource::Renderer, Some(Ok(probed())), offer());
    assert_eq!(found.raw_layouts, probed().raw_layouts);
    assert_eq!(found.mode_raw_layouts, probed().mode_raw_layouts);
    assert_eq!(found.candidate_modes, offer().candidate_modes);
    let unasked = offered_layouts(
        CaptureSource::Renderer,
        Some(Err(ProbeError {
            kind: ProbeErrorKind::Other,
            message: "no GPU".into(),
        })),
        offer(),
    );
    assert_eq!(unasked.raw_layouts, system);
    assert!(unasked.mode_raw_layouts.is_empty());
    let without = offered_layouts(CaptureSource::Renderer, None, offer());
    assert_eq!(without.raw_layouts, system);
    assert_eq!(without.mode_raw_layouts, offer().mode_raw_layouts);

    let silent = offer_for_kernel_session(offer());
    assert_eq!(silent.raw_layouts, offer().raw_layouts);
    assert_eq!(silent.mode_raw_layouts, offer().mode_raw_layouts);
    assert!(silent.audio_profiles.is_empty());
    assert_eq!(silent.requested_features, 0);
}

#[test]
fn a_capture_failure_keeps_its_generation() {
    let generation = NonZeroU64::new(7).unwrap();
    let mut display = KernelDisplayWithCapture::new();
    assert_eq!(
        display.capture_event(Some(CaptureEvent::Failed {
            media_generation: generation,
            error: "renderer stopped".into(),
        })),
        KernelDisplayEvent::MediaFailed {
            media_generation: Some(generation),
            error: "renderer stopped".into(),
        }
    );
    assert!(display.capture_events);
    assert_eq!(
        display.capture_event(None),
        KernelDisplayEvent::MediaFailed {
            media_generation: None,
            error: "capture event stream ended".into(),
        }
    );
    assert!(!display.capture_events);
}

#[test]
fn health_is_reported_once() {
    let generation = NonZeroU64::new(17).unwrap();
    let mut monitor = CaptureMonitor::watch(generation, "owner disappeared");
    assert_eq!(monitor.observe(HealthSignal::Healthy), None);
    assert_eq!(
        monitor.observe(HealthSignal::Failed("output failed".into())),
        Some(CaptureEvent::Failed {
            media_generation: generation,
            error: "output failed".into(),
        })
    );
    assert_eq!(
        monitor.observe(HealthSignal::Failed("a second failure".into())),
        None
    );
    assert!(monitor.shutdown(Ok(())).is_ok());
    let mut monitor = CaptureMonitor::watch(generation, "owner disappeared");
    assert_eq!(
        monitor.observe(HealthSignal::Closed),
        Some(CaptureEvent::Failed {
            media_generation: generation,
            error: "owner disappeared".into(),
        })
    );
    let mut monitor = CaptureMonitor::watch(generation, "owner disappeared");
    assert_eq!(monitor.observe(HealthSignal::Cancelled), None);
    assert_eq!(monitor.observe(HealthSignal::Failed("retired".into())), None);
    assert_eq!(
        monitor.shutdown(Err("panicked".into())).unwrap_err().to_text(),
        "join capture monitor: panicked"
    );
}

#[test]
fn a_released_capability_is_cleaned_up_once() {
    let mut lease = CapabilityLease::new();
    assert_eq!(lease.cleaned(Some(Ok(()))), LeaseReport::Nothing);
    assert!(lease.release());
    assert!(!lease.release());
    assert_eq!(
        lease.cleaned(Some(Err("busy".into()))),
        LeaseReport::Tell(Err("busy".into()))
    );
    assert_eq!(lease.state, LeaseState::Ended);
    assert!(!lease.abandon());
    let mut lost = CapabilityLease::new();
    assert!(lost.release());
    assert_eq!(
        lost.cleaned(None),
        LeaseReport::Tell(Err("capability cleanup worker stopped".into()))
    );
}

#[test]
fn an_abandoned_capability_is_still_cleaned_up() {
    let mut dropped = CapabilityLease::new();
    assert!(dropped.abandon());
    assert_eq!(
        dropped.cleaned(Some(Err("busy".into()))),
        LeaseReport::Note("busy".into())
    );
    let mut aborted = CapabilityLease::new();
    assert!(aborted.release());
    assert!(!aborted.abandon());
    assert_eq!(aborted.state, LeaseState::Cleaning { awaited: false });
    assert_eq!(aborted.cleaned(Some(Ok(()))), LeaseReport::Nothing);
}

#[test]
fn setup_errors_are_explained() {
    assert_eq!(
        DisplaySetupError::Cancelled.to_text(""),
        "display setup was cancelled"
    );
    assert_eq!(
        DisplaySetupError::KernelSession(KernelSessionError::Timeout).to_text(""),
        "acquire kernel display session: kernel display operation timed out"
    );
    assert_eq!(
        DisplaySetupError::KernelAttach(AttachError::Rejected(OsError {
            code: Some(5),
            text: "no monitor".into(),
        }))
        .to_text(""),
        "attach selected Device through monitor control: attach monitor: no monitor"
    );
    assert_eq!(
        DisplaySetupError::Backend(BackendSessionError::Protocol).to_text("bad reply"),
        "backend display session failed: bad reply"
    );
    assert_eq!(
        StartDisplaySetupError::Start("no entropy".into()).to_text(),
        "start display setup operation: no entropy"
    );
    assert_eq!(
        StartDisplaySetupError::TooManyOperations.to_text(),
        "the setup-operation retention limit is exhausted"
    );
    assert_eq!(
        RemoveManagedDisplayError::Cleanup("stuck".into()).to_text(),
        "remove cast display: stuck"
    );
    assert_eq!(
        DeviceSessionRecoveryError::GenerationExhausted.to_text(),
        "Device-session recovery generation exhausted"
    );
    assert_eq!(
        DeviceSessionFactoryError::Cancelled.to_text(),
        "Device-session recovery was cancelled"
    );
    assert_eq!(
        CastDisplaySlotError::Stopped.to_text(),
        "cast-display slot actor stopped"
    );
}
