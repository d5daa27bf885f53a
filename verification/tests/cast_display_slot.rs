use pronk::cast_display_slot::{
    current_media_failure, observe_kernel_event, DeviceSessionAction, DeviceSessionPolicyState,
    PendingSessionRequest,
};
use pronk::display_state::{DisplayGrantState, DisplayRuntimeState, DisplayTopology};
use pronk::kernel_display_port::{KernelDisplayEvent, KernelDisplayObservation};
use pronk::media_policy::DeviceSessionReadiness;
use pronk::nonzero::NonZeroU64;
use pronk::protocol::{DeviceAvailability, DeviceInfo};

fn device(
    availability: DeviceAvailability,
    connection_generation: u64,
    discovery_generation: u64,
    revision: u64,
) -> DeviceInfo {
    DeviceInfo {
        backend_id: "chromiacast".into(),
        device_id: "stable-tv-id".into(),
        display_name: "Living Room TV".into(),
        availability,
        connection_generation,
        discovery_generation,
        device_revision: revision,
        metadata: Vec::new(),
    }
}

#[test]
fn passive_discovery_changes_do_not_replace_a_live_session() {
    let initial = device(DeviceAvailability::Available, 1, 2, 3);
    let mut state = DeviceSessionPolicyState::new(&initial, true, 1);

    let mut renamed = initial.clone();
    renamed.display_name = "Den TV".into();
    renamed.device_revision = 4;
    assert!(state.observe_device(&renamed).is_none());
    assert!(state.is_ready());

    let unavailable = device(DeviceAvailability::Unavailable, 1, 2, 5);
    assert!(state.observe_device(&unavailable).is_none());
    assert!(state.is_ready());
    assert_eq!(state.readiness(&unavailable), DeviceSessionReadiness::Ready);

    let recovered = device(DeviceAvailability::Available, 1, 3, 6);
    assert!(state.observe_device(&recovered).is_none());
    assert!(state.is_ready());
    assert_eq!(state.session_generation(), 1);
}

#[test]
fn backend_reconnection_replaces_a_live_session() {
    let initial = device(DeviceAvailability::Available, 1, 2, 3);
    let mut state = DeviceSessionPolicyState::new(&initial, true, 1);
    let reconnected = device(DeviceAvailability::Available, 2, 3, 4);

    assert!(matches!(
        state.observe_device(&reconnected),
        Some(DeviceSessionAction::Recover(_))
    ));
    assert!(!state.is_ready());
}

#[test]
fn discovery_drives_recovery_after_the_live_session_fails() {
    let initial = device(DeviceAvailability::Available, 1, 2, 3);
    let mut state = DeviceSessionPolicyState::new(&initial, true, 1);
    assert!(state.transport_failed(1));

    let unavailable = device(DeviceAvailability::Unavailable, 1, 2, 5);
    assert!(matches!(
        state.observe_device(&unavailable),
        Some(DeviceSessionAction::Cancel)
    ));

    let recovered = device(DeviceAvailability::Available, 2, 3, 6);
    assert!(matches!(
        state.observe_device(&recovered),
        Some(DeviceSessionAction::Recover(_))
    ));
    state.begin_request(7, &recovered);
    assert!(!state.complete_request(6, &recovered, 2, &recovered));
    assert!(state.complete_request(7, &recovered, 2, &recovered));
    assert!(state.is_ready());
    assert_eq!(state.session_generation(), 2);
}

#[test]
fn withdrawn_device_invalidates_an_in_flight_recovery() {
    let initial = device(DeviceAvailability::Available, 1, 2, 3);
    let mut state = DeviceSessionPolicyState::new(&initial, true, 4);
    let reconnected = device(DeviceAvailability::Available, 2, 3, 4);
    assert!(matches!(
        state.observe_device(&reconnected),
        Some(DeviceSessionAction::Recover(_))
    ));
    state.begin_request(7, &reconnected);

    let unavailable = device(DeviceAvailability::Unavailable, 2, 3, 5);
    assert!(matches!(
        state.observe_device(&unavailable),
        Some(DeviceSessionAction::Cancel)
    ));
    assert!(!state.complete_request(7, &reconnected, 5, &unavailable));
    assert_eq!(state.session_generation(), 4);
    assert!(!state.is_ready());
}

#[test]
fn repeated_device_observation_keeps_the_pending_recovery() {
    let initial = device(DeviceAvailability::Available, 1, 2, 3);
    let mut state = DeviceSessionPolicyState::new(&initial, true, 1);
    let replacement = device(DeviceAvailability::Available, 2, 3, 4);
    assert!(matches!(
        state.observe_device(&replacement),
        Some(DeviceSessionAction::Recover(_))
    ));
    state.begin_request(7, &replacement);

    assert!(state.observe_device(&replacement).is_none());
    assert!(matches!(
        state,
        DeviceSessionPolicyState::Recovering {
            request: PendingSessionRequest {
                request_generation: 7,
                ..
            },
            ..
        }
    ));

    let revised = device(DeviceAvailability::Available, 2, 3, 5);
    assert!(matches!(
        state.observe_device(&revised),
        Some(DeviceSessionAction::Recover(_))
    ));
}

#[test]
fn media_failure_only_applies_to_its_current_generation() {
    let current = KernelDisplayEvent::MediaFailed {
        media_generation: NonZeroU64::new(7),
        error: "renderer stopped".into(),
    };
    assert_eq!(
        current_media_failure(7, &current).as_deref(),
        Some("renderer stopped")
    );
    assert_eq!(current_media_failure(8, &current), None);

    let untagged = KernelDisplayEvent::MediaFailed {
        media_generation: None,
        error: "grant failed".into(),
    };
    assert_eq!(
        current_media_failure(8, &untagged).as_deref(),
        Some("grant failed")
    );
}

#[test]
fn repeated_kernel_observations_do_not_advance_display_state() {
    let mut runtime = DisplayRuntimeState::attached(1);
    let mut grant = DisplayGrantState::Active;
    let observation = KernelDisplayEvent::Changed(KernelDisplayObservation {
        topology: DisplayTopology::Attached { route: None },
        grant_state: DisplayGrantState::Active,
    });
    assert!(!observe_kernel_event(&mut runtime, &mut grant, observation));
    assert_eq!(runtime.revision(), 1);

    assert!(observe_kernel_event(
        &mut runtime,
        &mut grant,
        KernelDisplayEvent::Changed(KernelDisplayObservation {
            topology: DisplayTopology::Attached { route: None },
            grant_state: DisplayGrantState::SuspendedNoMaster,
        }),
    ));
    assert_eq!(runtime.revision(), 2);

    assert!(observe_kernel_event(
        &mut runtime,
        &mut grant,
        KernelDisplayEvent::Revoked,
    ));
    let revision = runtime.revision();
    assert!(!observe_kernel_event(
        &mut runtime,
        &mut grant,
        KernelDisplayEvent::Revoked,
    ));
    assert_eq!(runtime.revision(), revision);
    assert!(!observe_kernel_event(
        &mut runtime,
        &mut grant,
        KernelDisplayEvent::MediaFailed {
            media_generation: None,
            error: "CastKMS grant was revoked".into(),
        },
    ));
    assert_eq!(runtime.revision(), revision);
}

#[test]
fn stale_transport_failure_cannot_disrupt_the_replacement_session() {
    let initial = device(DeviceAvailability::Available, 1, 1, 1);
    let mut state = DeviceSessionPolicyState::new(&initial, true, 4);
    assert!(!state.transport_failed(3));
    assert!(state.is_ready());
    assert!(state.transport_failed(4));
    assert!(!state.is_ready());
    assert!(!state.transport_failed(4));
}

#[test]
fn a_failed_request_is_noted_only_while_it_is_awaited() {
    let initial = device(DeviceAvailability::Available, 1, 1, 1);
    let mut state = DeviceSessionPolicyState::new(&initial, false, 4);
    assert!(!state.fail_request(1, &initial));
    state.begin_request(1, &initial);
    assert_eq!(
        state.readiness(&initial),
        DeviceSessionReadiness::Available
    );
    assert!(!state.fail_request(2, &initial));
    assert!(state.fail_request(1, &initial));
    assert_eq!(
        state,
        DeviceSessionPolicyState::Unavailable {
            last_session_generation: 4
        }
    );
}
