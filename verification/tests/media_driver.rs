use pronk::device_session_port::{
    DeviceMediaConfiguration, DeviceMediaKind, DeviceMediaStopReason, DeviceMediaSuspendReason,
    DeviceMediaTarget, DeviceSessionStopReason,
};
use pronk::display_state::{RouteTarget, RoutedMode};
use pronk::media_driver::{
    BackendStartStep, CleanupRemaining, DriverMediaPhase, PortOutcome,
    ProductionMediaSessionDriver, StopAction, StopDuty, SuspendStep,
};
use pronk::media_pipeline_port::PreparedCaptureMedia;
use pronk::media_session::{
    MediaRoute, MediaStartRequest, MediaStopReason, MediaSuspendReason,
};
use pronk::nonzero::{NonZeroU32, NonZeroU64};

#[derive(Debug, Clone, PartialEq, Eq)]
enum Call {
    CaptureStart(u64),
    Mint(u64, bool),
    Configure(u64),
    CaptureActivate(u64),
    DeviceStart(u64),
    DeviceSuspend(u64),
    CaptureSuspend(u64),
    DeviceStopMedia(u64),
    CaptureStop(u64),
    DeviceFinalStop(DeviceSessionStopReason),
    CaptureShutdown,
}

fn generation(value: u64) -> NonZeroU64 {
    NonZeroU64::new(value).unwrap()
}

fn target(kind: DeviceMediaKind, generation: NonZeroU64) -> DeviceMediaTarget {
    DeviceMediaTarget {
        kind,
        node_name: format!("pronk.video.test.{}", generation.get()),
        object_serial: NonZeroU64::new(101).unwrap(),
        session_id: "01234567-89ab-cdef-0123-456789abcdef".into(),
        device_instance: "test-device".into(),
        connector_id: NonZeroU32::new(40).unwrap(),
        output_index: 0,
        media_generation: generation,
        render_device: None,
        caps: "video/x-raw,format=BGRx".into(),
    }
}

fn request(generation: u64) -> MediaStartRequest {
    MediaStartRequest {
        media_generation: generation,
        route: MediaRoute {
            route_generation: 1,
            target: RouteTarget::new(NonZeroU32::new(7).unwrap()),
            mode: RoutedMode {
                width: 1920,
                height: 1080,
                refresh_millihz: 60_000,
                flags: 0,
            },
        },
    }
}

fn prepared(value: u64) -> PreparedCaptureMedia {
    PreparedCaptureMedia {
        media_generation: generation(value),
        video_target: target(DeviceMediaKind::Video, generation(value)),
        audio_target: None,
        configuration: DeviceMediaConfiguration {
            video_profile_id: "h264-high".into(),
            audio_profile_id: None,
            mode: request(value).route.mode,
            video_bitrate: NonZeroU64::new(8_000_000).unwrap(),
        },
    }
}

fn start_capture(
    driver: &mut ProductionMediaSessionDriver,
    returned: u64,
    calls: &mut Vec<Call>,
) -> Result<(), String> {
    let started = driver
        .begin_start_capture(request(1))
        .map_err(|error| error.to_text())?;
    calls.push(Call::CaptureStart(started.get()));
    driver
        .finish_start_capture(request(1), PortOutcome::Done(prepared(returned)))
        .map_err(|error| error.to_text())
}

fn start_media(driver: &mut ProductionMediaSessionDriver, calls: &mut Vec<Call>) {
    let (started, needs_audio) = driver.begin_start_media(request(1)).unwrap();
    calls.push(Call::Mint(started.get(), needs_audio));
    let setup = driver.transfer_media(PortOutcome::Done(false)).unwrap();
    assert_eq!(setup.targets.len(), 1);
    let mut step = Some(BackendStartStep::Configure);
    while let Some(current) = step {
        calls.push(match current {
            BackendStartStep::Configure => Call::Configure(setup.media_generation.get()),
            BackendStartStep::Activate => Call::CaptureActivate(started.get()),
            BackendStartStep::Start => Call::DeviceStart(started.get()),
        });
        step = current.after(PortOutcome::Done(())).unwrap();
    }
}

fn stop(driver: &mut ProductionMediaSessionDriver, calls: &mut Vec<Call>) -> Vec<String> {
    let mut failures = Vec::new();
    let Some(stopping) = driver.begin_stop(1).unwrap() else {
        return failures;
    };
    match driver.backend_stop_duty(stopping) {
        StopDuty::Nothing => {}
        StopDuty::Refused(text) => failures.push(text),
        StopDuty::Stop => {
            calls.push(Call::DeviceStopMedia(stopping.get()));
            driver.finish_backend_stop(PortOutcome::Done(()), &mut failures);
        }
    }
    match driver.capture_stop_duty(stopping) {
        StopDuty::Nothing => {}
        StopDuty::Refused(text) => failures.push(text),
        StopDuty::Stop => {
            calls.push(Call::CaptureStop(stopping.get()));
            driver.finish_capture_stop(PortOutcome::Done(()), &mut failures);
        }
    }
    failures
}

fn shutdown(
    driver: &mut ProductionMediaSessionDriver,
    reason: MediaStopReason,
    calls: &mut Vec<Call>,
) {
    if let Some((device, reason)) = driver.begin_shutdown(reason) {
        if device {
            calls.push(Call::DeviceFinalStop(reason));
        }
        calls.push(Call::CaptureShutdown);
        driver
            .finish_shutdown(Ok(()), PortOutcome::Done(()))
            .unwrap();
    }
}

#[test]
fn authority_transfer_and_teardown_keep_their_order() {
    let mut calls = Vec::new();
    let mut driver = ProductionMediaSessionDriver::new();
    start_capture(&mut driver, 1, &mut calls).unwrap();
    start_media(&mut driver, &mut calls);
    let (suspended, told) = driver
        .begin_suspend(1, MediaSuspendReason::GrantUnavailable)
        .unwrap();
    assert_eq!(told, DeviceMediaSuspendReason::SessionInactive);
    let mut step = Some(SuspendStep::Backend);
    while let Some(current) = step {
        calls.push(match current {
            SuspendStep::Backend => Call::DeviceSuspend(suspended.get()),
            SuspendStep::Capture => Call::CaptureSuspend(suspended.get()),
        });
        step = current.after(PortOutcome::Done(())).unwrap();
    }
    assert!(stop(&mut driver, &mut calls).is_empty());
    shutdown(&mut driver, MediaStopReason::DisplayRemoved, &mut calls);
    assert_eq!(
        calls,
        vec![
            Call::CaptureStart(1),
            Call::Mint(1, false),
            Call::Configure(1),
            Call::CaptureActivate(1),
            Call::DeviceStart(1),
            Call::DeviceSuspend(1),
            Call::CaptureSuspend(1),
            Call::DeviceStopMedia(1),
            Call::CaptureStop(1),
            Call::DeviceFinalStop(DeviceSessionStopReason::DisplayRemoved),
            Call::CaptureShutdown,
        ]
    );
}

#[test]
fn stale_capture_output_is_only_cleaned_up() {
    let mut calls = Vec::new();
    let mut driver = ProductionMediaSessionDriver::new();
    assert!(start_capture(&mut driver, 2, &mut calls)
        .unwrap_err()
        .contains("stale media generation"));
    assert!(driver.begin_start_media(request(1)).is_err());
    assert!(stop(&mut driver, &mut calls).is_empty());
    shutdown(&mut driver, MediaStopReason::BackendShutdown, &mut calls);
    assert_eq!(
        calls,
        vec![
            Call::CaptureStart(1),
            Call::CaptureStop(1),
            Call::DeviceFinalStop(DeviceSessionStopReason::DaemonShutdown),
            Call::CaptureShutdown,
        ]
    );
}

#[test]
fn a_missing_device_owner_does_not_skip_capture_cleanup() {
    let mut calls = Vec::new();
    let mut driver = ProductionMediaSessionDriver::new();
    start_capture(&mut driver, 1, &mut calls).unwrap();
    start_media(&mut driver, &mut calls);
    assert_eq!(
        driver.begin_shutdown(MediaStopReason::BackendShutdown),
        Some((true, DeviceSessionStopReason::DaemonShutdown))
    );
    let failures = stop(&mut driver, &mut calls);
    assert_eq!(failures, vec!["Device session is no longer available"]);
    assert_eq!(calls.last(), Some(&Call::CaptureStop(1)));
    assert_eq!(
        driver.begin_shutdown(MediaStopReason::BackendShutdown),
        Some((false, DeviceSessionStopReason::DaemonShutdown))
    );
    assert!(driver.finish_shutdown(Ok(()), PortOutcome::Done(())).is_ok());
    assert_eq!(driver.begin_shutdown(MediaStopReason::BackendShutdown), None);
}

#[test]
fn cleanups_are_independent_of_each_other() {
    let mut phase = DriverMediaPhase::BackendPending(generation(3));
    phase.begin_cleanup();
    assert_eq!(
        phase,
        DriverMediaPhase::Cleanup {
            generation: generation(3),
            remaining: CleanupRemaining::Both,
        }
    );
    phase.complete_capture_cleanup();
    assert_eq!(phase.capture_generation(), None);
    assert_eq!(phase.backend_generation(), Some(generation(3)));
    phase.complete_backend_cleanup();
    assert_eq!(phase, DriverMediaPhase::Idle);
}

#[test]
fn operations_on_other_generations_are_refused() {
    let mut calls = Vec::new();
    let mut driver = ProductionMediaSessionDriver::new();
    assert_eq!(
        driver.begin_start_capture(request(0)).unwrap_err().to_text(),
        "media generation must be nonzero"
    );
    start_capture(&mut driver, 1, &mut calls).unwrap();
    assert_eq!(
        driver.begin_start_capture(request(2)).unwrap_err().to_text(),
        "a previous media generation still requires cleanup"
    );
    assert_eq!(
        driver.begin_start_media(request(2)).unwrap_err().to_text(),
        "start backend media requested generation 2; active generation is Some(1)"
    );
    assert_eq!(
        driver
            .begin_suspend(2, MediaSuspendReason::DeviceUnavailable)
            .unwrap_err()
            .to_text(),
        "suspend media requested generation 2; active generation is Some(1)"
    );
    assert_eq!(
        driver.transfer_media(PortOutcome::Done(true)).unwrap_err().to_text(),
        "PipeWire remote layout differs from prepared media targets"
    );
    assert_eq!(
        driver.transfer_media(PortOutcome::Cancelled).unwrap_err().to_text(),
        "mint backend PipeWire remotes was cancelled"
    );
}

#[test]
fn failed_steps_name_themselves() {
    assert_eq!(
        BackendStartStep::Activate
            .after(PortOutcome::Failed("no frame".into()))
            .unwrap_err()
            .to_text(),
        "activate capture pipeline failed: no frame"
    );
    assert_eq!(
        SuspendStep::Capture
            .after(PortOutcome::Cancelled)
            .unwrap_err()
            .to_text(),
        "suspend capture pipeline was cancelled"
    );
    let mut driver = ProductionMediaSessionDriver::new();
    driver.begin_shutdown(MediaStopReason::DisplayRemoved);
    assert_eq!(
        driver
            .finish_shutdown(
                Err("device is gone".into()),
                PortOutcome::Failed("stuck".into())
            )
            .unwrap_err()
            .to_text(),
        "final Device-session stop failed: device is gone; \
         shut down capture pipeline failed: stuck"
    );
    assert_eq!(
        driver.begin_start_capture(request(1)).unwrap_err().to_text(),
        "media driver is shut down"
    );
}

#[test]
fn a_failed_backend_stop_still_stops_capture() {
    let mut calls = Vec::new();
    let mut driver = ProductionMediaSessionDriver::new();
    start_capture(&mut driver, 1, &mut calls).unwrap();
    start_media(&mut driver, &mut calls);
    let StopAction::StopBackend { run, reason } = driver.stop(1, MediaStopReason::ModeChanged)
    else {
        panic!("the backend is not stopped first");
    };
    assert_eq!(reason, DeviceMediaStopReason::ModeChanged);
    let StopAction::StopCapture(run) =
        driver.backend_stopped(run, PortOutcome::Failed("lost".into()))
    else {
        panic!("capture is not stopped");
    };
    assert_eq!(
        driver
            .capture_stopped(run, PortOutcome::Done(()))
            .unwrap_err()
            .to_text(),
        "stop backend media failed: lost"
    );
    let StopAction::StopBackend { run, reason } = driver.stop(1, MediaStopReason::DisplayRemoved)
    else {
        panic!("the backend is not asked again");
    };
    assert_eq!(reason, DeviceMediaStopReason::DisplayRemoved);
    assert_eq!(
        driver.backend_stopped(run, PortOutcome::Done(())),
        StopAction::Ended(Ok(()))
    );
    assert!(driver.begin_start_capture(request(2)).is_ok());
}

#[test]
fn stops_of_other_generations_are_told() {
    let mut calls = Vec::new();
    let mut driver = ProductionMediaSessionDriver::new();
    start_capture(&mut driver, 1, &mut calls).unwrap();
    start_media(&mut driver, &mut calls);
    let StopAction::Ended(Err(error)) = driver.stop(2, MediaStopReason::OutputDisabled) else {
        panic!("another generation was stopped");
    };
    assert_eq!(
        error.to_text(),
        "stop backend media requested generation 2; active generation is Some(1); \
         stop capture pipeline requested generation 2; active generation is Some(1)"
    );
    assert!(matches!(driver.stop(0, MediaStopReason::OutputDisabled), StopAction::Ended(Err(_))));
}
