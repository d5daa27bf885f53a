use pronk::caller::{
    pin_authorized_system_bus_caller, pin_bus_caller_for, query_bus_caller_credentials,
    BusCallerCredentials, BusCallerError, PinRequest, PublicBus,
};
use pronk::dbus::interfaces::{
    add_display, displays_validated, list_displays, operation_published, pin_caller,
    remove_display, retire_unpublished_operation, setup_started, AddDisplay, AddDisplayEnd,
    MethodError, RetireStep,
};
use pronk::dbus::public_state::{
    clean, public_attachment_state, public_display, public_display_state, public_displays,
    public_identity_source, public_media_error, public_media_session_state,
    public_operation_state, same_media_observation, DisplayAttachmentState, DisplayIdentitySource,
    DisplayRouteState, MediaSessionPhase, OperationStage, MAX_MEDIA_ERROR_BYTES,
};
use pronk::dbus::signals::{
    begin_lifecycle_event, serve_lifecycle_event, BusProgress, BusStep, LifecycleKind, ObjectReply,
    OperationNotifier, PublicDisplay, SignalError,
};
use pronk::manager::ManagerRequestError;
use pronk::dbus::{
    display_path, method_sender, operation_path, CAST_DISPLAY_PATH_PREFIX, OPERATION_PATH_PREFIX,
};
use pronk::display::setup::{DisplaySetupSnapshot, OperationErrorCode};
use pronk::display::{AddedCastDisplaySnapshot, CastDisplayId, DisplaySetupStage};
use pronk::display_state::{
    ActiveRoute, AttachmentState, DisplayGrantState, DisplayRuntimeState, DisplayTopology,
    MediaStatus, RouteTarget, RoutedMode,
};
use pronk::nonzero::{NonZeroU32, NonZeroU64};
use pronk::output::{CastKmsOutput, CastKmsOutputId, OutputConnection};
use pronk::preparation::{IdentitySource, PnpResolutionSource, PreparedCastDevice};
use pronk::protocol::{DeviceAvailability, DeviceInfo};

fn display_id() -> CastDisplayId {
    CastDisplayId::from_random_bytes([7; 16])
}

fn device() -> DeviceInfo {
    DeviceInfo {
        backend_id: "mock".into(),
        device_id: "living-room".into(),
        display_name: "Living Room TV".into(),
        availability: DeviceAvailability::Available,
        connection_generation: 1,
        discovery_generation: 2,
        device_revision: 1,
        metadata: Vec::new(),
    }
}

fn added_display_snapshot_with_audio(
    display_id: CastDisplayId,
    audio_enabled: bool,
) -> AddedCastDisplaySnapshot {
    let device = device();
    let state_revision = device.device_revision;
    AddedCastDisplaySnapshot {
        display_id,
        state_revision,
        device,
        prepared: PreparedCastDevice {
            manufacturer_name: Some("Google".into()),
            manufacturer_source: IdentitySource::AuthenticatedDeviceInfo,
            product_name: Some("Mock Display".into()),
            product_source: IdentitySource::SetupEndpoint,
            pnp_id: "GGL".into(),
            pnp_source: PnpResolutionSource::LegalSuffixName,
            product_code: 42,
            serial: 99,
            audio_enabled,
        },
        output: CastKmsOutput {
            id: CastKmsOutputId {
                device_path: "/sys/devices/virtual/castkms".into(),
                output_index: 0,
            },
            node_path: "/dev/dri/card42".into(),
            device_major: 226,
            device_minor: 42,
            crtc_id: 57,
            connector_id: 77,
            connector_name: "Virtual-1".into(),
            connection: OutputConnection::Connected,
        },
        kernel_session_id: NonZeroU64::new(9).unwrap(),
        grant_state: DisplayGrantState::Active,
        runtime: DisplayRuntimeState::attached(state_revision),
    }
}

#[test]
fn public_media_projection_coalesces_internal_phases() {
    let mut snapshot = added_display_snapshot_with_audio(display_id(), true);
    let cases = [
        (MediaStatus::Idle, MediaSessionPhase::Inactive, 0),
        (MediaStatus::StartingCapture, MediaSessionPhase::Starting, 1),
        (MediaStatus::StartingMedia, MediaSessionPhase::Starting, 1),
        (MediaStatus::Running, MediaSessionPhase::Running, 1),
        (MediaStatus::Suspended, MediaSessionPhase::Suspended, 1),
        (MediaStatus::Reconfiguring, MediaSessionPhase::Recovering, 1),
        (MediaStatus::Stopping, MediaSessionPhase::Stopping, 1),
        (
            MediaStatus::Failed("transport failed".into()),
            MediaSessionPhase::Failed,
            1,
        ),
    ];
    for (internal, public, generation) in cases {
        snapshot.runtime.observe_media(generation, internal);
        snapshot.state_revision = snapshot.runtime.revision();
        let projected = public_media_session_state(&snapshot);
        assert_eq!(projected.phase, public);
        assert_eq!(projected.media_generation, generation);
        assert!(projected.audio_enabled);
    }

    snapshot.runtime.observe_media(
        1,
        MediaStatus::Failed(format!("\n{}é", "x".repeat(MAX_MEDIA_ERROR_BYTES))),
    );
    snapshot.state_revision = snapshot.runtime.revision();
    let bounded = public_media_session_state(&snapshot);
    assert_eq!(bounded.error.len(), MAX_MEDIA_ERROR_BYTES);
    assert!(!bounded.error.chars().any(char::is_control));

    snapshot
        .runtime
        .observe_media(1, MediaStatus::Failed("\n\t".into()));
    snapshot.state_revision = snapshot.runtime.revision();
    let missing = public_media_session_state(&snapshot);
    assert_eq!(
        missing.error,
        "media session failed without diagnostic detail"
    );
}

#[test]
fn diagnostics_are_cleaned_like_text() {
    for scalar in 0..=0x10ffffu32 {
        let Some(character) = char::from_u32(scalar) else {
            continue;
        };
        if scalar > 0x3100 && scalar % 97 != 0 {
            continue;
        }
        let text = format!("{character}a{character}b{character}");
        let expected: String = text
            .chars()
            .map(|character| {
                if character.is_control() {
                    ' '
                } else {
                    character
                }
            })
            .collect::<String>()
            .trim()
            .to_owned();
        assert_eq!(clean(&text), expected);
    }
    assert_eq!(
        public_media_error(None),
        "media session failed without diagnostic detail"
    );
    assert_eq!(public_media_error(Some(" \u{7}a\u{2029}")), "a");
}

#[test]
fn a_public_display_is_described_by_its_device_and_output() {
    let snapshot = added_display_snapshot_with_audio(display_id(), false);
    let info = public_display(&snapshot);
    assert_eq!(info.display_id, display_id().to_text());
    assert_eq!(info.backend_id, "mock");
    assert_eq!(info.manufacturer_name, "Google");
    assert_eq!(
        info.manufacturer_source,
        DisplayIdentitySource::AuthenticatedDeviceInfo
    );
    assert_eq!(info.product_source, DisplayIdentitySource::SetupEndpoint);
    assert_eq!(info.pnp_id, "GGL");
    assert_eq!(info.connector_id, 77);
    assert_eq!(info.connector_name, "Virtual-1");
    assert_eq!(info.product_code, 42);
    assert_eq!(info.serial, 99);
    assert_eq!(info.attachment_state, DisplayAttachmentState::Attached);
    let infos = public_displays(&vec![snapshot]);
    assert_eq!(infos, vec![info]);
    assert_eq!(displays_validated(infos, Ok(())).unwrap().len(), 1);
    assert_eq!(
        public_identity_source(IdentitySource::DiscoveryAdvertisement),
        DisplayIdentitySource::DiscoveryAdvertisement
    );
    assert_eq!(
        public_attachment_state(AttachmentState::Unknown),
        DisplayAttachmentState::Unknown
    );
}

#[test]
fn absent_names_are_empty() {
    let mut snapshot = added_display_snapshot_with_audio(display_id(), false);
    snapshot.prepared.manufacturer_name = None;
    snapshot.prepared.product_name = None;
    let info = public_display(&snapshot);
    assert_eq!(info.manufacturer_name, "");
    assert_eq!(info.product_name, "");
}

#[test]
fn media_signals_follow_only_media_changes() {
    let mut snapshot = added_display_snapshot_with_audio(display_id(), false);
    let mut objects = PublicDisplay::added(&snapshot);
    let initial_revision = objects.media.revision;

    snapshot.device.display_name = "Living Room TV renamed".into();
    snapshot
        .runtime
        .observe_topology(DisplayTopology::Attached {
            route: Some(ActiveRoute {
                target: RouteTarget::new(NonZeroU32::new(19).unwrap()),
                mode: RoutedMode {
                    width: 1920,
                    height: 1080,
                    refresh_millihz: 60_000,
                    flags: 0,
                },
            }),
        });
    snapshot.state_revision = snapshot.runtime.revision();
    assert!(!objects.state_changed(&snapshot));
    assert_eq!(objects.state, public_display_state(&snapshot));
    assert_eq!(objects.state.route_state, DisplayRouteState::Active);
    assert_eq!(objects.state.routed_mode.unwrap().width, 1920);
    assert_eq!(objects.info.display_name, "Living Room TV renamed");
    assert_eq!(objects.media.revision, initial_revision);

    snapshot.runtime.observe_media(1, MediaStatus::Running);
    snapshot.state_revision = snapshot.runtime.revision();
    assert!(objects.state_changed(&snapshot));
    assert_eq!(objects.media, public_media_session_state(&snapshot));
    assert_eq!(objects.media.phase, MediaSessionPhase::Running);
    assert!(same_media_observation(
        &objects.media,
        &public_media_session_state(&snapshot)
    ));
}

#[test]
fn setup_operations_are_published_with_their_error() {
    let mut setup = DisplaySetupSnapshot::new(display_id(), DisplaySetupStage::Validating);
    let state = public_operation_state(&setup);
    assert_eq!(state.stage, OperationStage::Validating);
    assert_eq!(state.error_code, OperationErrorCode::NoError);
    assert_eq!(state.error, "");
    setup.set_status(
        DisplaySetupStage::Failed,
        OperationErrorCode::Internal,
        Some("broken".into()),
    );
    let state = public_operation_state(&setup);
    assert_eq!(state.display_id, display_id().to_text());
    assert_eq!(state.stage, OperationStage::Failed);
    assert_eq!(state.error, "broken");
}

#[test]
fn object_paths_are_valid_and_belong_to_one_display() {
    let path = display_path(display_id()).unwrap();
    assert_eq!(
        path,
        format!("{CAST_DISPLAY_PATH_PREFIX}/07070707070747078707070707070707")
    );
    assert!(zvariant::ObjectPath::try_from(path.as_str()).is_ok());
    let operation = operation_path(display_id()).unwrap();
    assert_eq!(
        operation,
        format!("{OPERATION_PATH_PREFIX}/{}", display_id().object_segment())
    );
    assert_ne!(path, operation);
}

#[test]
fn a_call_needs_a_sender() {
    assert_eq!(method_sender(Some(":1.7".into())), Ok(":1.7".into()));
    assert_eq!(method_sender(None), Err("D-Bus caller has no sender"));
}

fn run(kind: LifecycleKind, media_changed: bool) -> Vec<BusStep> {
    let mut steps = vec![begin_lifecycle_event(kind)];
    loop {
        match serve_lifecycle_event(steps[steps.len() - 1], ObjectReply::Done, media_changed) {
            BusProgress::Next(step) => steps.push(step),
            BusProgress::Done => return steps,
            BusProgress::Ended { .. } => panic!("a step failed"),
        }
    }
}

#[test]
fn lifecycle_events_touch_every_object_in_order() {
    assert_eq!(
        run(LifecycleKind::Added, false),
        vec![
            BusStep::RegisterDisplay,
            BusStep::RegisterMediaSession,
            BusStep::EmitDisplayAdded,
        ]
    );
    assert_eq!(
        run(LifecycleKind::StateChanged, false),
        vec![
            BusStep::LookupDisplay,
            BusStep::LookupMediaSession,
            BusStep::EmitStateChanged,
        ]
    );
    assert_eq!(
        run(LifecycleKind::StateChanged, true).last(),
        Some(&BusStep::EmitMediaChanged)
    );
    assert_eq!(
        run(LifecycleKind::Removed, false),
        vec![
            BusStep::EmitRemoved,
            BusStep::RemoveMediaSession,
            BusStep::RemoveDisplay,
            BusStep::RemoveOperation,
            BusStep::EmitDisplayRemoved,
        ]
    );
}

#[test]
fn a_partial_registration_is_rolled_back() {
    assert_eq!(
        serve_lifecycle_event(
            BusStep::RegisterMediaSession,
            ObjectReply::Failed("taken".into()),
            false
        ),
        BusProgress::Ended {
            last: Some(BusStep::RollBackDisplay),
            error: SignalError::RegisterMediaSession("taken".into()),
        }
    );
    assert_eq!(
        SignalError::RegisterMediaSession("taken".into()).to_text(),
        "register media-session interface: taken"
    );
    assert_eq!(
        serve_lifecycle_event(BusStep::RemoveOperation, ObjectReply::NotFound, false),
        BusProgress::Next(BusStep::EmitDisplayRemoved)
    );
    assert_eq!(
        serve_lifecycle_event(
            BusStep::EmitRemoved,
            ObjectReply::Failed("no watcher".into()),
            false
        ),
        BusProgress::Next(BusStep::RemoveMediaSession)
    );
    assert_eq!(
        serve_lifecycle_event(
            BusStep::RemoveDisplay,
            ObjectReply::Failed("busy".into()),
            false
        ),
        BusProgress::Ended {
            last: None,
            error: SignalError::Remove("busy".into()),
        }
    );
}

#[test]
fn an_operation_that_ended_early_is_published_once() {
    let notifier = OperationNotifier::start(true);
    assert_eq!(notifier, OperationNotifier::Publish);
    let notifier = notifier.published(Ok(()), true).unwrap();
    assert_eq!(notifier, OperationNotifier::Retain);
    let notifier = notifier.retained(Some(true)).unwrap();
    assert_eq!(notifier, OperationNotifier::RemoveObject);
    assert_eq!(
        notifier.removed(ObjectReply::NotFound).unwrap(),
        OperationNotifier::Finished
    );

    let waiting = OperationNotifier::start(false);
    assert_eq!(waiting, OperationNotifier::Wait);
    assert_eq!(waiting.changed(true).unwrap(), OperationNotifier::Publish);
    assert_eq!(waiting.changed(false), Err(SignalError::StatusClosed));
    assert_eq!(
        waiting.published(Ok(()), false).unwrap(),
        OperationNotifier::Wait
    );
    assert_eq!(
        waiting.published(Err("closed".into()), false),
        Err(SignalError::Emit("closed".into()))
    );
    assert_eq!(waiting.retained(None), Err(SignalError::ManagerStopped));
    assert_eq!(
        waiting.retained(Some(false)).unwrap(),
        OperationNotifier::Finished
    );
}

#[test]
fn callers_are_known_by_the_bus_alone() {
    let credentials = BusCallerCredentials { pid: 12, uid: 1000 };
    assert_eq!(
        query_bus_caller_credentials(Some(12), Some(1000)),
        Ok(credentials)
    );
    assert_eq!(
        query_bus_caller_credentials(None, None),
        Err(BusCallerError::MissingProcessId)
    );
    assert_eq!(
        query_bus_caller_credentials(Some(0), None),
        Err(BusCallerError::MissingUserId)
    );
    assert_eq!(
        query_bus_caller_credentials(Some(0), Some(1)),
        Err(BusCallerError::InvalidProcessId)
    );
    assert_eq!(
        BusCallerError::InvalidProcessId.to_text(),
        "bus broker returned process ID zero"
    );
    assert_eq!(
        pin_bus_caller_for(credentials, PublicBus::Session, 1000),
        PinRequest::LoginSession {
            pid: 12,
            uid: 1000,
            expected_uid: 1000,
        }
    );
    assert_eq!(
        pin_bus_caller_for(credentials, PublicBus::System, 990),
        PinRequest::Process {
            pid: 12,
            uid: 1000,
            expected_uid: 990,
        }
    );
    assert_eq!(
        pin_authorized_system_bus_caller(credentials),
        PinRequest::Process {
            pid: 12,
            uid: 1000,
            expected_uid: 1000,
        }
    );
}

#[test]
fn displays_are_added_for_known_callers() {
    assert_eq!(
        add_display(Some("empty device".into()), Some(":1.5".into())),
        Err(MethodError::InvalidArgs("empty device".into()))
    );
    assert_eq!(
        add_display(None, None),
        Err(MethodError::AccessDenied(
            "D-Bus caller has no sender".into()
        ))
    );
    assert_eq!(
        add_display(None, Some(":1.5".into())),
        Ok(AddDisplay::PinCaller {
            sender: ":1.5".into()
        })
    );
    assert_eq!(
        pin_caller(Err("exited".into())),
        Err(MethodError::AccessDenied("exited".into()))
    );
    assert_eq!(pin_caller(Ok(())), Ok(AddDisplay::StartSetup));
    let id = CastDisplayId::from_random_bytes([3; 16]);
    let Ok(AddDisplay::Publish { path }) = setup_started(Ok(id)) else {
        panic!("the operation has no path");
    };
    assert_eq!(Ok(path.clone()), operation_path(id));
    assert_eq!(
        setup_started(Err("manager stopped".into())),
        Err(MethodError::Failed("manager stopped".into()))
    );
    assert_eq!(
        operation_published(path.clone(), Ok(true)),
        AddDisplayEnd::Answer {
            path: path.clone(),
            notify: true,
        }
    );
    assert_eq!(
        operation_published(path, Err("disconnected".into())),
        AddDisplayEnd::Retire(MethodError::Failed("disconnected".into()))
    );
}

#[test]
fn unpublished_operations_are_forgotten_when_they_end() {
    assert_eq!(
        retire_unpublished_operation(false, true),
        RetireStep::Wait
    );
    assert_eq!(
        retire_unpublished_operation(true, false),
        RetireStep::Forget
    );
    assert_eq!(
        retire_unpublished_operation(false, false),
        RetireStep::GiveUp
    );
}

#[test]
fn displays_are_removed_by_their_identity() {
    let id = CastDisplayId::from_random_bytes([3; 16]);
    assert_eq!(remove_display(&id.to_text()), Ok(id));
    assert_eq!(
        remove_display("03030303"),
        Err(MethodError::InvalidArgs(
            "cast-display ID is not a canonical random UUID".into()
        ))
    );
}

#[test]
fn displays_are_listed_only_if_the_list_is_valid() {
    assert_eq!(list_displays(Ok(Vec::new())), Ok(Vec::new()));
    assert_eq!(
        list_displays(Err(ManagerRequestError::ManagerStopped)),
        Err(MethodError::Failed("Pronk manager has stopped".into()))
    );
    assert_eq!(
        displays_validated(Vec::new(), Err("listed twice".into())),
        Err(MethodError::Failed("listed twice".into()))
    );
}
