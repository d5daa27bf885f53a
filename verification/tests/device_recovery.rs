use pronk::device_recovery::transaction::{
    run_recovery, Recovery, RecoveryAction, RecoveryInput, RecoveryPhase,
};
use pronk::device_recovery::{
    bounded_text, DeviceSessionFactoryError, DeviceSessionRecoveryError,
    DeviceSessionRecoveryEvent, DeviceSessionRecoveryHandle, RecoveryState, RecoveryWait,
    MAX_RECOVERY_ERROR_BYTES,
};
use pronk::device_session_port::DeviceSessionEvent;
use pronk::nonzero::NonZeroU64;
use pronk::protocol::{DeviceAvailability, DeviceInfo};

fn generation(value: u64) -> NonZeroU64 {
    NonZeroU64::new(value).unwrap()
}

fn device() -> DeviceInfo {
    DeviceInfo {
        backend_id: "mock".into(),
        device_id: "tv".into(),
        display_name: "TV".into(),
        availability: DeviceAvailability::Available,
        connection_generation: 2,
        discovery_generation: 3,
        device_revision: 4,
        metadata: Vec::new(),
    }
}

fn recovery(last: u64) -> Recovery {
    Recovery {
        state: RecoveryState::new(generation(last)),
        phase: RecoveryPhase::Idle,
    }
}

fn request() -> RecoveryInput {
    RecoveryInput::Recover {
        request_generation: 1,
        device: device(),
    }
}

#[test]
fn a_compatible_session_is_installed_and_then_watched() {
    let recovery = recovery(1);
    assert_eq!(
        recovery.state.waits_for(),
        RecoveryWait::CommandOrSessionEvent
    );
    let (recovery, action) = run_recovery(recovery, request());
    assert!(matches!(action, RecoveryAction::Retire { stop_events: true }));
    assert_eq!(recovery.state.waits_for(), RecoveryWait::Command);
    let (recovery, action) = run_recovery(
        recovery,
        RecoveryInput::Retired(Ok(Some("late acknowledgement".into()))),
    );
    assert!(
        matches!(action, RecoveryAction::Create { session_generation, .. } if session_generation == generation(2))
    );
    let (recovery, action) = run_recovery(
        recovery,
        RecoveryInput::Created(Ok(())),
    );
    assert!(matches!(action, RecoveryAction::Validate));
    let (recovery, action) = run_recovery(recovery, RecoveryInput::Validated(Ok(())));
    assert!(
        matches!(action, RecoveryAction::Install { session_generation } if session_generation == generation(2))
    );
    let (recovery, action) =
        run_recovery(recovery, RecoveryInput::Installed(Ok(generation(2))));
    let RecoveryAction::Report { stop_events, event } = action else {
        panic!("the session was not reported");
    };
    assert!(!stop_events);
    assert_eq!(
        event,
        DeviceSessionRecoveryEvent::Ready {
            request_generation: 1,
            device: device(),
            session_generation: generation(2),
            retired_session_cleanup_error: Some("late acknowledgement".into()),
        }
    );
    let (recovery, action) = run_recovery(recovery, RecoveryInput::Reported { taken: true });
    assert!(matches!(action, RecoveryAction::Wait { stop_events: false }));
    let (recovery, action) = run_recovery(
        recovery,
        RecoveryInput::SessionEvent(Some(DeviceSessionEvent {
            session_generation: generation(2),
            error: "unplugged".into(),
        })),
    );
    assert!(matches!(
        action,
        RecoveryAction::Report {
            stop_events: true,
            event: DeviceSessionRecoveryEvent::TransportFailed { session_generation, error },
        } if session_generation == generation(2) && error == "unplugged"
    ));
    assert_eq!(recovery.state.waits_for(), RecoveryWait::Command);
}

#[test]
fn an_incompatible_session_is_cleaned_up_and_not_installed() {
    let (recovery, _) = run_recovery(recovery(1), request());
    let (recovery, _) = run_recovery(recovery, RecoveryInput::Retired(Ok(None)));
    let (recovery, _) = run_recovery(
        recovery,
        RecoveryInput::Created(Ok(())),
    );
    let (recovery, action) =
        run_recovery(recovery, RecoveryInput::Validated(Err("other EDID".into())));
    assert!(matches!(action, RecoveryAction::CleanUp));
    let (recovery, action) =
        run_recovery(recovery, RecoveryInput::CleanedUp(Some("stuck".into())));
    assert!(matches!(
        action,
        RecoveryAction::Report {
            event: DeviceSessionRecoveryEvent::Failed { error, .. },
            ..
        } if error == "recovered Device session is incompatible: other EDID; \
                       replacement cleanup also failed: stuck"
    ));
    let (recovery, _) = run_recovery(recovery, RecoveryInput::Reported { taken: true });
    assert!(matches!(recovery.phase, RecoveryPhase::Idle));
    assert_eq!(recovery.state.last_session_generation, generation(2));
}

#[test]
fn a_cancelled_attempt_uses_up_its_generation_without_a_report() {
    let (recovery, _) = run_recovery(recovery(1), request());
    let (recovery, _) = run_recovery(recovery, RecoveryInput::Retired(Ok(None)));
    let (recovery, action) = run_recovery(
        recovery,
        RecoveryInput::Created(Err(DeviceSessionFactoryError::Cancelled)),
    );
    assert!(matches!(action, RecoveryAction::Wait { stop_events: false }));
    let (recovery, action) = run_recovery(recovery, request());
    assert!(matches!(action, RecoveryAction::Retire { stop_events: false }));
    assert_eq!(recovery.state.last_session_generation, generation(3));
}

#[test]
fn a_queued_recovery_cancels_the_command_bound_attempt_ahead_of_it() {
    let mut handle = DeviceSessionRecoveryHandle::new();
    let first = handle.recover().unwrap();
    let second = handle.recover().unwrap();
    assert!(handle.is_cancelled(first));
    assert!(!handle.is_cancelled(second));

    let mut recovery = recovery(1);
    let mut attempts = Vec::new();
    for request_generation in [first, second] {
        let (retiring, action) = run_recovery(
            recovery,
            RecoveryInput::Recover {
                request_generation,
                device: device(),
            },
        );
        assert!(matches!(action, RecoveryAction::Retire { .. }));
        let (creating, action) = run_recovery(retiring, RecoveryInput::Retired(Ok(None)));
        let RecoveryAction::Create {
            request_generation: asked,
            session_generation,
        } = action
        else {
            panic!("the factory was not asked");
        };
        assert_eq!(asked, request_generation);
        attempts.push(session_generation.get());
        if request_generation == second {
            handle.cancel_phase();
        }
        assert!(handle.is_cancelled(asked));
        (recovery, _) = run_recovery(
            creating,
            RecoveryInput::Created(Err(DeviceSessionFactoryError::Cancelled)),
        );
    }
    assert_eq!(attempts, vec![2, 3]);
    let (_, action) = run_recovery(recovery, RecoveryInput::Shutdown);
    assert!(matches!(action, RecoveryAction::End { stop_events: false }));
}

#[test]
fn only_required_reports_end_the_recovery() {
    let (lost, _) = run_recovery(recovery(1), RecoveryInput::SessionEvent(None));
    assert!(matches!(
        lost.phase,
        RecoveryPhase::Reporting { required: true }
    ));
    let (lost, action) = run_recovery(lost, RecoveryInput::Reported { taken: false });
    assert!(matches!(action, RecoveryAction::End { stop_events: false }));
    assert!(matches!(lost.phase, RecoveryPhase::Ended));

    let (failed, _) = run_recovery(recovery(u64::MAX), request());
    assert!(matches!(
        failed.phase,
        RecoveryPhase::Reporting { required: false }
    ));
    let (failed, action) = run_recovery(failed, RecoveryInput::Reported { taken: false });
    assert!(matches!(action, RecoveryAction::Wait { stop_events: false }));
    assert!(matches!(failed.phase, RecoveryPhase::Idle));
}

#[test]
fn failures_are_reported_with_their_step() {
    let failed = |action: RecoveryAction| match action {
        RecoveryAction::Report {
            event: DeviceSessionRecoveryEvent::Failed { error, .. },
            ..
        } => error,
        action => panic!("no failure: {action:?}"),
    };
    let (recovery_now, _) = run_recovery(recovery(1), request());
    let (_, action) = run_recovery(recovery_now, RecoveryInput::Retired(Err("gone".into())));
    assert_eq!(failed(action), "retire current Device session: gone");

    let (recovery_now, _) = run_recovery(recovery(1), request());
    let (recovery_now, _) = run_recovery(recovery_now, RecoveryInput::Retired(Ok(None)));
    let (_, action) = run_recovery(
        recovery_now,
        RecoveryInput::Created(Err(DeviceSessionFactoryError::failed("no backend"))),
    );
    assert_eq!(failed(action), "no backend");

    let (_, action) = run_recovery(recovery(u64::MAX), request());
    assert_eq!(failed(action), "Device-session generation exhausted");

    let (recovery_now, _) = run_recovery(recovery(1), request());
    let (recovery_now, _) = run_recovery(recovery_now, RecoveryInput::Retired(Ok(None)));
    let (recovery_now, _) = run_recovery(
        recovery_now,
        RecoveryInput::Created(Ok(())),
    );
    let (recovery_now, _) = run_recovery(recovery_now, RecoveryInput::Validated(Ok(())));
    let (_, action) = run_recovery(recovery_now, RecoveryInput::Installed(Err("closed".into())));
    assert!(matches!(
        action,
        RecoveryAction::Report {
            stop_events: true,
            ..
        }
    ));
    assert_eq!(failed(action), "install recovered Device session: closed");
}

#[test]
fn a_recovery_ends_once() {
    let (recovery, action) = run_recovery(recovery(1), RecoveryInput::Shutdown);
    assert!(matches!(action, RecoveryAction::End { stop_events: true }));
    let (recovery, action) = run_recovery(recovery, request());
    assert!(matches!(action, RecoveryAction::Wait { stop_events: false }));
    assert!(matches!(recovery.phase, RecoveryPhase::Ended));
}

#[test]
fn request_numbers_run_out() {
    let mut handle = DeviceSessionRecoveryHandle {
        request_generation: 4,
        phase_cancelled: true,
    };
    assert_eq!(handle.recover(), Ok(5));
    assert!(handle.is_cancelled(4));
    assert!(!handle.is_cancelled(5));
    assert_eq!(DeviceSessionRecoveryHandle::requested(5, true), Ok(5));
    assert_eq!(
        DeviceSessionRecoveryHandle::requested(5, false),
        Err(DeviceSessionRecoveryError::Stopped)
    );
    let mut spent = DeviceSessionRecoveryHandle {
        request_generation: u64::MAX,
        phase_cancelled: false,
    };
    assert_eq!(
        spent.recover(),
        Err(DeviceSessionRecoveryError::GenerationExhausted)
    );
    assert!(!spent.is_cancelled(u64::MAX));
}

#[test]
fn long_diagnostics_end_in_dots() {
    let text = "x".repeat(MAX_RECOVERY_ERROR_BYTES + 1);
    let bounded = bounded_text(text, MAX_RECOVERY_ERROR_BYTES);
    assert_eq!(bounded.len(), MAX_RECOVERY_ERROR_BYTES);
    assert!(bounded.ends_with("x..."));
    assert_eq!(bounded_text("éé".into(), 3), "...");
    assert_eq!(bounded_text("éé".into(), 4), "éé");
    assert_eq!(bounded_text("abc".into(), 1), "...");
}
