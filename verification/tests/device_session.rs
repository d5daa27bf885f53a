use pronk::device_session::{
    configure_request, map_configuration, map_media_stop_reason, map_media_target, map_session_event,
    map_session_stop_reason, map_suspend_reason, BackendDeviceSession,
    BackendMediaLifecycle, BackendMediaPhase, BackendSessionEvent, StopReason, SuspendReason,
};
use pronk::device_session_port::{
    DeviceMediaConfiguration, DeviceMediaKind, DeviceMediaSetup, DeviceMediaStopReason,
    DeviceMediaSuspendReason, DeviceMediaTarget, DeviceSessionStopReason, RenderDeviceIdentity,
};
use pronk::display_state::RoutedMode;
use pronk::nonzero::{NonZeroU32, NonZeroU64};

fn generation(value: u64) -> NonZeroU64 {
    NonZeroU64::new(value).unwrap()
}

#[test]
fn lifecycle_rejects_stale_and_overlapping_generations() {
    let mut lifecycle = BackendMediaLifecycle::Prepared {
        last_completed: None,
    };
    lifecycle.begin_configure(generation(1)).unwrap();
    assert!(lifecycle.begin_configure(generation(2)).is_err());

    lifecycle = BackendMediaLifecycle::Configured(generation(1));
    assert!(lifecycle
        .begin_transition(generation(2), BackendMediaPhase::Configured, "start")
        .is_err());
    lifecycle
        .begin_transition(generation(1), BackendMediaPhase::Configured, "start")
        .unwrap();
    assert_eq!(lifecycle, BackendMediaLifecycle::Uncertain(generation(1)));
}

#[test]
fn ambiguous_operations_only_allow_matching_cleanup() {
    let mut lifecycle = BackendMediaLifecycle::Uncertain(generation(4));
    assert!(lifecycle.begin_stop(generation(3)).is_err());
    assert!(lifecycle.begin_stop(generation(4)).unwrap());
    lifecycle = BackendMediaLifecycle::Prepared {
        last_completed: Some(generation(4)),
    };
    assert!(!lifecycle.begin_stop(generation(4)).unwrap());
    assert_eq!(
        lifecycle
            .begin_configure(generation(3))
            .unwrap_err()
            .to_text(),
        "media generation 3 is not newer than completed generation 4"
    );
    assert!(lifecycle.begin_configure(generation(4)).is_err());
    lifecycle.begin_configure(generation(5)).unwrap();
}

#[test]
fn locally_rejected_configuration_can_consume_its_cleanup_generation() {
    let mut lifecycle = BackendMediaLifecycle::Prepared {
        last_completed: None,
    };
    assert!(!lifecycle.begin_stop(generation(1)).unwrap());
    assert_eq!(
        lifecycle,
        BackendMediaLifecycle::Prepared {
            last_completed: Some(generation(1)),
        }
    );
    assert!(!lifecycle.begin_stop(generation(1)).unwrap());
    assert!(lifecycle.begin_configure(generation(1)).is_err());
    lifecycle.begin_configure(generation(2)).unwrap();
}

#[test]
fn backend_protocol_mapping_drops_kms_timing_flags() {
    let configuration = map_configuration(DeviceMediaConfiguration {
        video_profile_id: "h264-high".into(),
        audio_profile_id: None,
        mode: RoutedMode {
            width: 1920,
            height: 1080,
            refresh_millihz: 60_000,
            flags: 5,
        },
        video_bitrate: NonZeroU64::new(8_000_000).unwrap(),
    });

    assert_eq!(configuration.mode.width, 1920);
    assert_eq!(configuration.mode.height, 1080);
    assert_eq!(configuration.mode.refresh_millihz, 60_000);
    assert_eq!(configuration.mode.flags, 0);
}

#[test]
fn backend_protocol_mapping_preserves_the_render_device() {
    let target = map_media_target(DeviceMediaTarget {
        kind: DeviceMediaKind::Video,
        node_name: "pronk.video.test".into(),
        object_serial: generation(11),
        session_id: "01234567-89ab-cdef-0123-456789abcdef".into(),
        device_instance: "castkms-card1".into(),
        connector_id: NonZeroU32::new(51).unwrap(),
        output_index: 0,
        media_generation: generation(7),
        render_device: Some(RenderDeviceIdentity {
            major: 226,
            minor: 128,
        }),
        caps: "video/x-raw(memory:DMABuf)".into(),
    });

    assert_eq!(
        target.render_device,
        Some(RenderDeviceIdentity {
            major: 226,
            minor: 128,
        })
    );
}

#[test]
fn a_whole_generation_runs_through_its_states() {
    let mut lifecycle = BackendMediaLifecycle::Prepared {
        last_completed: None,
    };
    lifecycle.begin_configure_media(Ok(()), generation(1)).unwrap();
    lifecycle.finish_configure(generation(1), Ok(())).unwrap();
    assert_eq!(lifecycle, BackendMediaLifecycle::Configured(generation(1)));
    lifecycle
        .begin_transition(generation(1), BackendMediaPhase::Configured, "start")
        .unwrap();
    lifecycle.finish_start(generation(1), Ok(())).unwrap();
    assert_eq!(lifecycle, BackendMediaLifecycle::Streaming(generation(1)));
    lifecycle
        .begin_transition(generation(1), BackendMediaPhase::Streaming, "suspend")
        .unwrap();
    lifecycle.finish_suspend(generation(1), Ok(())).unwrap();
    assert_eq!(lifecycle, BackendMediaLifecycle::Suspended(generation(1)));
    assert!(lifecycle.begin_stop(generation(1)).unwrap());
    lifecycle.finish_stop(generation(1), Ok(())).unwrap();
    assert_eq!(
        lifecycle,
        BackendMediaLifecycle::Prepared {
            last_completed: Some(generation(1)),
        }
    );
}

#[test]
fn a_failed_reply_leaves_the_generation_uncertain() {
    let mut lifecycle = BackendMediaLifecycle::Configured(generation(2));
    lifecycle
        .begin_transition(generation(2), BackendMediaPhase::Configured, "start")
        .unwrap();
    assert_eq!(
        lifecycle
            .finish_start(generation(2), Err("peer is gone".into()))
            .unwrap_err()
            .to_text(),
        "peer is gone"
    );
    assert_eq!(lifecycle, BackendMediaLifecycle::Uncertain(generation(2)));
    assert_eq!(lifecycle.description(), "uncertain generation 2");
}

#[test]
fn an_invalid_configuration_changes_nothing() {
    let mut lifecycle = BackendMediaLifecycle::Prepared {
        last_completed: Some(generation(1)),
    };
    assert!(lifecycle
        .begin_configure_media(Err("no target".into()), generation(2))
        .is_err());
    assert_eq!(
        lifecycle.description(),
        "prepared (last completed generation 1)"
    );
}

#[test]
fn session_events_and_reasons_have_backend_names() {
    let event = map_session_event(BackendSessionEvent::Disconnected {
        session_generation: generation(3),
        error_text: "unplugged".into(),
    });
    assert_eq!(event.session_generation, generation(3));
    assert_eq!(event.error, "Device disconnected: unplugged");
    assert_eq!(
        map_suspend_reason(DeviceMediaSuspendReason::ModeChanged),
        SuspendReason::ModeChange
    );
    assert_eq!(
        map_media_stop_reason(DeviceMediaStopReason::OutputDisabled),
        StopReason::UserRequest
    );
    assert_eq!(
        map_session_stop_reason(DeviceSessionStopReason::DaemonShutdown),
        StopReason::BackendShutdown
    );
}

fn setup(media_generation: u64) -> DeviceMediaSetup {
    let target = |kind, node_name: &str| DeviceMediaTarget {
        kind,
        node_name: node_name.into(),
        object_serial: generation(3),
        session_id: "session".into(),
        device_instance: "device".into(),
        connector_id: NonZeroU32::new(4).unwrap(),
        output_index: 0,
        media_generation: generation(media_generation),
        render_device: None,
        caps: "caps".into(),
    };
    DeviceMediaSetup {
        media_generation: generation(media_generation),
        targets: vec![
            target(DeviceMediaKind::Video, "video"),
            target(DeviceMediaKind::Audio, "audio"),
        ],
        configuration: DeviceMediaConfiguration {
            video_profile_id: "h264".into(),
            audio_profile_id: Some("opus".into()),
            mode: RoutedMode {
                width: 1280,
                height: 720,
                refresh_millihz: 60_000,
                flags: 5,
            },
            video_bitrate: generation(8_000_000),
        },
    }
}

#[test]
fn a_session_admits_operations_in_their_order() {
    let mut session = BackendDeviceSession::new();
    let request = configure_request(setup(1));
    assert_eq!(request.targets.len(), 2);
    assert_eq!(request.targets[0].node_name, "video");
    assert_eq!(request.targets[1].node_name, "audio");
    assert_eq!(request.configuration.mode.flags, 0);
    assert_eq!(
        session
            .configure_media(&request, Err("no video".into()))
            .unwrap_err()
            .to_text(),
        "invalid media setup: no video"
    );
    assert_eq!(
        session.start_media(generation(1)).unwrap_err().to_text(),
        "cannot start media generation 1 while backend media is prepared (no completed generation)"
    );
    session.configure_media(&request, Ok(())).unwrap();
    session
        .media
        .finish_configure(generation(1), Ok(()))
        .unwrap();
    session.start_media(generation(1)).unwrap();
    session.media.finish_start(generation(1), Ok(())).unwrap();
    assert_eq!(
        session
            .suspend_media(generation(1), DeviceMediaSuspendReason::ModeChanged)
            .unwrap(),
        SuspendReason::ModeChange
    );
    session.media.finish_suspend(generation(1), Ok(())).unwrap();
    session.resume_media(generation(1)).unwrap();
    assert_eq!(
        session.media.finish_start(generation(1), Err("lost".into())),
        Err(pronk::device_session_port::DeviceSessionError("lost".into()))
    );
    assert_eq!(
        session
            .stop_media(generation(1), DeviceMediaStopReason::ModeChanged)
            .unwrap(),
        Some(StopReason::UserRequest)
    );
    session.media.finish_stop(generation(1), Ok(())).unwrap();
    assert_eq!(
        session
            .stop_media(generation(1), DeviceMediaStopReason::ModeChanged)
            .unwrap(),
        None
    );
    assert_eq!(
        session.stop(DeviceSessionStopReason::DaemonShutdown),
        StopReason::BackendShutdown
    );
}
