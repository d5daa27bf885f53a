use nix::libc;
use pronk::brokered_kernel_display;
use pronk::brokered_kernel_display::BrokeredKernelDisplay;
use pronk::display_state::{DisplayGrantState, DisplayTopology};
use pronk::kernel_display::{
    active_observation, classify_capture_error, detach, normalize_detach, observed,
    unavailable_observation, AttachCleanup, AttachError, AttachPhase, AttachProgress, AttachReply,
    CaptureDescription, EdidMode, KernelDisplay, KernelDisplayConfig, Observation,
};
use pronk::kernel_display_port::{KernelDisplayEvent, KernelDisplayObservation};
use pronk::kernel_session::{
    released, KernelSession, KernelSessionError, ReleasePhase, ReleaseProgress, ReleaseReply,
};
use pronk::nonzero::{NonZeroU32, NonZeroU64};
use pronk::os_error::OsError;

fn mode(width: u32, height: u32) -> EdidMode {
    EdidMode {
        width,
        height,
        refresh_millihz: 60_000,
    }
}

fn modes() -> Vec<EdidMode> {
    vec![mode(1920, 1080), mode(1280, 720)]
}

fn os_error(code: i32) -> OsError {
    OsError {
        code: Some(code),
        text: format!("os error {code}"),
    }
}

#[test]
fn kernel_display_active_output_uses_the_advertised_timing() {
    let observation =
        active_observation(&modes(), NonZeroU32::new(17).unwrap(), 1280, 720, 59_940, 5).unwrap();
    assert_eq!(observation.grant_state, DisplayGrantState::Active);
    let DisplayTopology::Attached { route: Some(route) } = observation.topology else {
        panic!("the output has no route");
    };
    assert_eq!(route.target.get(), 17);
    assert_eq!(route.mode.refresh_millihz, 59_940);
    assert_eq!(route.mode.flags, 5);
}

#[test]
fn kernel_display_unadvertised_output_dimensions_are_rejected() {
    assert!(
        active_observation(&modes(), NonZeroU32::new(17).unwrap(), 1024, 768, 60_000, 0,).is_err()
    );
}

#[test]
fn kernel_display_expected_capture_states_have_bounded_meanings() {
    assert!(matches!(
        classify_capture_error(os_error(libc::ENODEV), unavailable_observation()).unwrap(),
        Observation::State(KernelDisplayObservation {
            grant_state: DisplayGrantState::Pending,
            ..
        })
    ));
    assert!(matches!(
        classify_capture_error(os_error(libc::EACCES), unavailable_observation()).unwrap(),
        Observation::State(KernelDisplayObservation {
            grant_state: DisplayGrantState::SuspendedForeignContent,
            ..
        })
    ));
    assert!(matches!(
        classify_capture_error(os_error(libc::EKEYREVOKED), unavailable_observation()).unwrap(),
        Observation::Revoked
    ));
    assert!(classify_capture_error(os_error(libc::EIO), unavailable_observation()).is_err());
}

#[test]
fn kernel_display_teardown_accepts_authority_that_is_already_gone() {
    for errno in [libc::ECANCELED, libc::EKEYREVOKED, libc::ENODEV] {
        assert!(normalize_detach(Err(os_error(errno))).is_ok());
    }
    assert!(normalize_detach(Err(os_error(libc::EIO))).is_err());
}

#[test]
fn brokered_kernel_display_active_output_uses_the_advertised_timing() {
    let observation = brokered_kernel_display::active_observation(
        &modes(),
        NonZeroU32::new(17).unwrap(),
        1280,
        720,
        59_940,
        5,
    )
    .unwrap();
    assert_eq!(observation.grant_state, DisplayGrantState::Active);
    let DisplayTopology::Attached { route: Some(route) } = observation.topology else {
        panic!("the output has no route");
    };
    assert_eq!(route.target.get(), 17);
    assert_eq!(route.mode.refresh_millihz, 59_940);
    assert_eq!(route.mode.flags, 5);
}

#[test]
fn brokered_kernel_display_unadvertised_output_dimensions_are_rejected() {
    assert!(brokered_kernel_display::active_observation(
        &modes(),
        NonZeroU32::new(17).unwrap(),
        1024,
        768,
        60_000,
        0,
    )
    .is_err());
}

#[test]
fn brokered_kernel_display_expected_capture_states_have_bounded_meanings() {
    assert!(matches!(
        brokered_kernel_display::classify_capture_error(
            os_error(libc::ENODEV),
            unavailable_observation()
        )
        .unwrap(),
        Observation::State(KernelDisplayObservation {
            grant_state: DisplayGrantState::Pending,
            ..
        })
    ));
    assert!(matches!(
        brokered_kernel_display::classify_capture_error(
            os_error(libc::EACCES),
            unavailable_observation()
        )
        .unwrap(),
        Observation::State(KernelDisplayObservation {
            grant_state: DisplayGrantState::SuspendedForeignContent,
            ..
        })
    ));
    assert!(matches!(
        brokered_kernel_display::classify_capture_error(
            os_error(libc::EKEYREVOKED),
            unavailable_observation()
        )
        .unwrap(),
        Observation::Revoked
    ));
    assert!(brokered_kernel_display::classify_capture_error(
        os_error(libc::EIO),
        unavailable_observation()
    )
    .is_err());
}

#[test]
fn brokered_kernel_display_teardown_accepts_authority_that_is_already_gone() {
    for errno in [libc::ECANCELED, libc::EKEYREVOKED, libc::ENODEV] {
        let monitor = normalize_detach(Err(os_error(errno)));
        assert!(brokered_kernel_display::detach(monitor, Ok(())).is_ok());
    }
    let monitor = normalize_detach(Err(os_error(libc::EIO)));
    assert!(brokered_kernel_display::detach(monitor, Ok(())).is_err());
}

#[test]
fn a_failure_without_a_number_is_never_an_expected_state() {
    let error = OsError {
        code: None,
        text: "lost".into(),
    };
    assert_eq!(
        classify_capture_error(error, unavailable_observation())
            .unwrap_err()
            .to_text(),
        "observe capture output: lost"
    );
    assert!(matches!(
        classify_capture_error(os_error(libc::ECANCELED), unavailable_observation()),
        Ok(Observation::Revoked)
    ));
    assert!(normalize_detach(Err(os_error(libc::EACCES))).is_err());
    assert!(normalize_detach(Ok(())).is_ok());
}

fn config(modes: Vec<EdidMode>, poll_interval_ns: u64) -> KernelDisplayConfig {
    KernelDisplayConfig {
        crtc_id: NonZeroU32::new(3).unwrap(),
        modes,
        poll_interval_ns,
    }
}

fn description(width: u32, height: u32) -> CaptureDescription {
    CaptureDescription {
        width: NonZeroU32::new(width).unwrap(),
        height: NonZeroU32::new(height).unwrap(),
        refresh_millihz: NonZeroU32::new(60_000).unwrap(),
        mode_flags: 0,
    }
}

#[test]
fn observation_needs_modes_and_time() {
    let display = KernelDisplay::prepare(config(modes(), 1), Ok(())).unwrap();
    assert_eq!(display.current, unavailable_observation());
    assert!(KernelDisplay::prepare(config(Vec::new(), 1), Ok(())).is_err());
    assert_eq!(
        KernelDisplay::prepare(config(modes(), 0), Ok(()))
            .unwrap_err()
            .to_text(),
        "configure display observation: \
         advertised modes and a nonzero poll interval are required"
    );
    assert_eq!(
        KernelDisplay::prepare(config(modes(), 1), Err(os_error(libc::EMFILE)))
            .unwrap_err()
            .operation,
        "retain capture for display observation"
    );
    let crtc_id = NonZeroU32::new(3).unwrap();
    assert_eq!(
        BrokeredKernelDisplay::new(crtc_id, Vec::new(), 1)
            .unwrap_err()
            .operation,
        "configure brokered display observation"
    );
    assert!(BrokeredKernelDisplay::new(crtc_id, modes(), 1).is_ok());
}

#[test]
fn a_watched_display_tells_what_changes() {
    let mut display = KernelDisplay::prepare(config(modes(), 1), Ok(())).unwrap();
    let Some(KernelDisplayEvent::Changed(active)) =
        display.next_event(Ok(description(1280, 720))).unwrap()
    else {
        panic!("the output is not active");
    };
    assert_eq!(active.grant_state, DisplayGrantState::Active);
    assert_eq!(display.next_event(Ok(description(1280, 720))).unwrap(), None);
    assert_eq!(
        display
            .next_event(Ok(description(1024, 768)))
            .unwrap_err()
            .to_text(),
        "match capture output: active 1024x768 output was not advertised in its EDID"
    );
    assert_eq!(display.current, active);
    let Some(KernelDisplayEvent::Changed(suspended)) =
        display.next_event(Err(os_error(libc::EACCES))).unwrap()
    else {
        panic!("the suspension is not told");
    };
    assert_eq!(suspended.topology, active.topology);
    assert_eq!(
        display.next_event(Err(os_error(libc::ECANCELED))).unwrap(),
        Some(KernelDisplayEvent::Revoked)
    );
    assert_eq!(
        display
            .next_event(Err(os_error(libc::EIO)))
            .unwrap_err()
            .operation,
        "observe capture output"
    );
}

#[test]
fn a_watched_brokered_display_tells_what_changes() {
    let mut display =
        BrokeredKernelDisplay::new(NonZeroU32::new(3).unwrap(), modes(), 1).unwrap();
    assert!(matches!(
        display.next_event(Ok(description(1920, 1080))).unwrap(),
        Some(KernelDisplayEvent::Changed(_))
    ));
    assert_eq!(
        display.next_event(Err(os_error(libc::ENODEV))).unwrap(),
        Some(KernelDisplayEvent::Changed(unavailable_observation()))
    );
    assert_eq!(
        display
            .next_event(Err(os_error(libc::EIO)))
            .unwrap_err()
            .operation,
        "observe brokered capture output"
    );
    assert_eq!(
        display
            .next_event(Ok(description(1, 1)))
            .unwrap_err()
            .operation,
        "match brokered capture output"
    );
}

#[test]
fn a_lost_detach_worker_is_told() {
    assert_eq!(
        KernelDisplay::monitor_detached(Err("panicked".into()))
            .unwrap_err()
            .to_text(),
        "join monitor detach: panicked"
    );
    assert_eq!(
        BrokeredKernelDisplay::monitor_detached(Err("panicked".into()))
            .unwrap_err()
            .to_text(),
        "join brokered monitor detach: panicked"
    );
    assert_eq!(
        KernelDisplay::monitor_detached(Ok(Err(os_error(libc::ENODEV)))),
        Ok(Ok(()))
    );
    assert_eq!(
        KernelDisplay::monitor_detached(Ok(Err(os_error(libc::EIO)))),
        Ok(Err(os_error(libc::EIO)))
    );
}

#[test]
fn only_news_become_events() {
    let mut current = unavailable_observation();
    let same = Observation::State(current);
    assert_eq!(observed(&mut current, same), None);
    let active = KernelDisplayObservation {
        topology: current.topology,
        grant_state: DisplayGrantState::Active,
    };
    assert_eq!(
        observed(&mut current, Observation::State(active)),
        Some(KernelDisplayEvent::Changed(active))
    );
    assert_eq!(current, active);
    assert_eq!(
        observed(&mut current, Observation::Revoked),
        Some(KernelDisplayEvent::Revoked)
    );
    assert_eq!(current, active);
}

fn tried(
    monitor: Result<Option<Result<(), OsError>>, String>,
    cancelled: bool,
) -> Result<(), (AttachCleanup, AttachError)> {
    let display = KernelDisplay::prepare(config(modes(), 1), Ok(())).unwrap();
    match AttachPhase::AttachMonitor(display).proceed(AttachReply::Monitor(monitor), cancelled) {
        AttachProgress::Attached(_) => Ok(()),
        AttachProgress::Failed { cleanup, error } => Err((cleanup, error)),
        AttachProgress::Next(_) => panic!("the attachment did not end"),
    }
}

#[test]
fn observation_is_configured_before_the_monitor_changes() {
    let AttachProgress::Next(phase) = KernelDisplay::attach(config(modes(), 1), false) else {
        panic!("the attachment did not begin");
    };
    let AttachProgress::Next(AttachPhase::AttachMonitor(display)) =
        phase.proceed(AttachReply::Capture(Ok(())), false)
    else {
        panic!("the monitor was not to be attached");
    };
    assert_eq!(display.modes, modes());
    assert!(matches!(
        KernelDisplay::attach(config(modes(), 1), true),
        AttachProgress::Failed {
            cleanup: AttachCleanup::Release,
            error: AttachError::Cancelled,
        }
    ));
    assert!(matches!(
        KernelDisplay::attach(config(Vec::new(), 1), false),
        AttachProgress::Failed {
            cleanup: AttachCleanup::Nothing,
            error: AttachError::Configuration(_),
        }
    ));
    let AttachProgress::Next(phase) = KernelDisplay::attach(config(modes(), 1), false) else {
        panic!("the attachment did not begin");
    };
    let AttachProgress::Failed { cleanup, error } =
        phase.proceed(AttachReply::Capture(Err(os_error(libc::EMFILE))), false)
    else {
        panic!("the lost capture was ignored");
    };
    assert_eq!(cleanup, AttachCleanup::Nothing);
    assert_eq!(
        error.to_text(),
        format!(
            "prepare display observation: retain capture for display observation: os error {}",
            libc::EMFILE
        )
    );
}

#[test]
fn an_attached_monitor_is_kept_or_retired() {
    assert_eq!(tried(Ok(Some(Ok(()))), false), Ok(()));
    assert_eq!(
        tried(Ok(Some(Ok(()))), true),
        Err((AttachCleanup::Retire, AttachError::Cancelled))
    );
    assert_eq!(
        tried(Ok(Some(Err(os_error(libc::EIO)))), false),
        Err((
            AttachCleanup::Release,
            AttachError::Rejected(os_error(libc::EIO))
        ))
    );
    assert_eq!(
        tried(Ok(None), true),
        Err((AttachCleanup::Release, AttachError::Cancelled))
    );
    assert_eq!(
        tried(Err("panicked".into()), false),
        Err((
            AttachCleanup::Nothing,
            AttachError::Worker("panicked".into())
        ))
    );
}

#[test]
fn a_failed_detachment_does_not_hide_a_failed_release() {
    let detach_error = || Err(os_error(libc::EIO));
    let release_error = || Err(KernelSessionError::Timeout);
    assert!(detach(Ok(()), Ok(())).is_ok());
    assert_eq!(
        detach(detach_error(), Ok(())).unwrap_err().operation,
        "detach monitor"
    );
    assert_eq!(
        detach(Ok(()), release_error()).unwrap_err().to_text(),
        "release authorized display session: kernel display operation timed out"
    );
    assert_eq!(
        detach(detach_error(), release_error()).unwrap_err().message,
        format!(
            "detach: os error {}; release: kernel display operation timed out",
            libc::EIO
        )
    );
}

#[test]
fn a_renderer_failure_does_not_skip_the_display_session() {
    assert!(released(Ok(()), Ok(())).is_ok());
    assert_eq!(
        released(Err("renderer release failed".into()), Ok(()))
            .unwrap_err()
            .to_text(),
        "release unused renderer: renderer release failed"
    );
    assert_eq!(
        released(Ok(()), Err(KernelSessionError::Unavailable)),
        Err(KernelSessionError::Unavailable)
    );
    assert_eq!(
        released(Err("busy".into()), Err(KernelSessionError::InvalidOutput("CRTC")))
            .unwrap_err()
            .to_text(),
        "release display capabilities: renderer: busy; session: \
         CastKMS output has an invalid zero CRTC"
    );
}

fn session(renderer: bool) -> KernelSession {
    KernelSession::new(NonZeroU64::new(7).unwrap(), renderer)
}

/// Release a session, and tell in which order its parts go.
fn release(session: KernelSession) -> Vec<&'static str> {
    let mut events = Vec::new();
    let mut phase = session.release();
    loop {
        let reply = match &phase {
            ReleasePhase::Renderer => {
                events.push("renderer release");
                ReleaseReply::Renderer(Ok(()))
            }
            ReleasePhase::Session { .. } => {
                events.push("session release");
                ReleaseReply::Session(Ok(()))
            }
        };
        match phase.proceed(reply) {
            ReleaseProgress::Next(next) => phase = next,
            ReleaseProgress::Released(result) => {
                result.unwrap();
                return events;
            }
        }
    }
}

#[test]
fn the_renderer_is_handed_over_once() {
    let mut session = session(true);
    assert_eq!(session.id(), NonZeroU64::new(7).unwrap());
    assert!(session.take_renderer_access().is_ok());
    assert_eq!(
        session.take_renderer_access(),
        Err("the display session has no renderer capability")
    );
    assert_eq!(release(session), ["session release"]);
}

#[test]
fn a_session_is_released_after_its_renderer() {
    assert_eq!(
        release(session(true)),
        ["renderer release", "session release"]
    );
    let ReleaseProgress::Next(phase) = session(true)
        .release()
        .proceed(ReleaseReply::Renderer(Err("busy".into())))
    else {
        panic!("the session was kept");
    };
    let ReleaseProgress::Released(result) = phase.proceed(ReleaseReply::Session(Ok(()))) else {
        panic!("the release did not end");
    };
    assert_eq!(
        result.unwrap_err().to_text(),
        "release unused renderer: busy"
    );
}

#[test]
fn cancellation_while_attachment_is_queued_skips_monitor_io() {
    let AttachProgress::Next(phase) = KernelDisplay::attach(config(modes(), 1), false) else {
        panic!("the attachment did not begin");
    };
    let AttachProgress::Next(queued) = phase.proceed(AttachReply::Capture(Ok(())), false) else {
        panic!("the attachment is not queued");
    };
    let mut events = Vec::new();
    match queued.proceed(AttachReply::Monitor(Ok(None)), true) {
        AttachProgress::Failed {
            cleanup: AttachCleanup::Release,
            error: AttachError::Cancelled,
        } => events.extend(release(session(true))),
        _ => panic!("the attachment was not cancelled"),
    }
    assert_eq!(events.as_slice(), &["renderer release", "session release"]);
}
