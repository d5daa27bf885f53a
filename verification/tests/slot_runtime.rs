use pronk::cast_display_slot::end_sequence::{DisplayEnd, EndAction, EndReply};
use pronk::cast_display_slot::runtime::{
    finish, removal_ended, removal_result, CastDisplaySlotActorError, RecoveryCause, SlotEvent,
    SlotExit, SlotFlow, SlotRuntime, SlotStep,
};
use pronk::cast_display_slot::initial_snapshot;
use pronk::device_recovery::DeviceSessionRecoveryEvent;
use pronk::device_session_port::DeviceSessionStopReason;
use pronk::display::CastDisplayId;
use pronk::display_state::{
    DisplayGrantState, DisplayTopology, MediaState, MediaStatus,
};
use pronk::kernel_display_port::{
    KernelDisplayError, KernelDisplayEvent, KernelDisplayMetadata, KernelDisplayObservation,
};
use pronk::media_policy::DeviceSessionReadiness;
use pronk::media_session::MediaStopReason;
use pronk::nonzero::NonZeroU64;
use pronk::output::{CastKmsOutput, CastKmsOutputId, OutputConnection};
use pronk::preparation::{IdentitySource, PnpResolutionSource, PreparedCastDevice};
use pronk::protocol::{DeviceAvailability, DeviceInfo};

fn device(availability: DeviceAvailability, connection: u64, revision: u64) -> DeviceInfo {
    DeviceInfo {
        backend_id: "mock".into(),
        device_id: "tv".into(),
        display_name: "TV".into(),
        availability,
        connection_generation: connection,
        discovery_generation: 1,
        device_revision: revision,
        metadata: Vec::new(),
    }
}

fn slot() -> SlotRuntime {
    let current = device(DeviceAvailability::Available, 1, 1);
    let snapshot = initial_snapshot(
        CastDisplayId::from_random_bytes([5; 16]),
        1,
        current.clone(),
        PreparedCastDevice {
            manufacturer_name: None,
            manufacturer_source: IdentitySource::Absent,
            product_name: None,
            product_source: IdentitySource::Absent,
            pnp_id: "GGL".into(),
            pnp_source: PnpResolutionSource::ExactName,
            product_code: 1,
            serial: 2,
            audio_enabled: false,
        },
        CastKmsOutput {
            id: CastKmsOutputId {
                device_path: "/sys/devices/virtual/castkms".into(),
                output_index: 0,
            },
            node_path: "/dev/dri/card1".into(),
            device_major: 226,
            device_minor: 1,
            crtc_id: 3,
            connector_id: 4,
            connector_name: "Virtual-1".into(),
            connection: OutputConnection::Connected,
        },
        KernelDisplayMetadata {
            session_id: NonZeroU64::new(9).unwrap(),
        },
        KernelDisplayObservation {
            topology: DisplayTopology::Attached { route: None },
            grant_state: DisplayGrantState::Active,
        },
    );
    SlotRuntime::new(snapshot, &current, 1)
}

fn steps(flow: SlotFlow) -> Vec<SlotStep> {
    match flow {
        SlotFlow::Steps(steps) => steps,
        SlotFlow::Exit(exit) => panic!("the display ended: {exit:?}"),
    }
}

#[test]
fn a_reconnected_device_is_published_and_recovered() {
    let mut slot = slot();
    let reconnected = device(DeviceAvailability::Available, 2, 2);
    let steps = steps(slot.run(SlotEvent::UpdateDevice(reconnected.clone())));
    assert_eq!(steps.len(), 4);
    assert_eq!(steps[0], SlotStep::Publish);
    assert!(matches!(
        &steps[1],
        SlotStep::Observe(input) if input.device_session == DeviceSessionReadiness::Available
    ));
    assert_eq!(steps[2], SlotStep::Reply(true));
    assert_eq!(
        steps[3],
        SlotStep::Recover {
            device: reconnected.clone(),
            cause: RecoveryCause::DeviceUpdate,
        }
    );
    assert_eq!(slot.snapshot.state_revision, slot.snapshot.runtime.revision());

    slot.run(SlotEvent::RecoveryRequested {
        device: reconnected.clone(),
        cause: RecoveryCause::DeviceUpdate,
        reply: Ok(1),
    });
    let steps = self::steps(slot.run(SlotEvent::Recovery(Some(
        DeviceSessionRecoveryEvent::Ready {
            request_generation: 1,
            device: reconnected,
            session_generation: NonZeroU64::new(2).unwrap(),
            retired_session_cleanup_error: None,
        },
    ))));
    assert!(matches!(
        steps.as_slice(),
        [SlotStep::Observe(input)]
            if input.device_session == DeviceSessionReadiness::Ready
                && input.device_session_generation == 2
    ));
}

#[test]
fn a_repeated_device_record_is_only_answered() {
    let mut slot = slot();
    let same = device(DeviceAvailability::Available, 1, 1);
    assert_eq!(
        steps(slot.run(SlotEvent::UpdateDevice(same))),
        vec![SlotStep::Reply(false)]
    );
}

#[test]
fn a_recovery_that_cannot_start_ends_the_display() {
    let mut slot = slot();
    let current = device(DeviceAvailability::Available, 2, 2);
    assert_eq!(
        steps(slot.run(SlotEvent::RecoveryRequested {
            device: current.clone(),
            cause: RecoveryCause::DeviceUpdate,
            reply: Err("stopped".into()),
        })),
        vec![
            SlotStep::Publish,
            SlotStep::Terminal("start Device-session recovery: stopped".into()),
        ]
    );
    assert_eq!(slot.snapshot.runtime.media(), MediaState::Failed);
    assert_eq!(
        steps(slot.run(SlotEvent::RecoveryRequested {
            device: current,
            cause: RecoveryCause::TransportFailure("lost".into()),
            reply: Err("stopped".into()),
        })),
        vec![
            SlotStep::ReportFailure("lost".into()),
            SlotStep::Terminal(
                "start recovery after Device-session transport failure: stopped".into()
            ),
        ]
    );
}

#[test]
fn only_the_live_session_can_fail() {
    let mut slot = slot();
    let failed = |session: u64| {
        SlotEvent::Recovery(Some(DeviceSessionRecoveryEvent::TransportFailed {
            session_generation: NonZeroU64::new(session).unwrap(),
            error: "unplugged".into(),
        }))
    };
    assert!(steps(slot.run(failed(7))).is_empty());
    let mut steps = steps(slot.run(failed(1)));
    assert_eq!(steps[0], SlotStep::Publish);
    assert_eq!(
        steps[2],
        SlotStep::Recover {
            device: device(DeviceAvailability::Available, 1, 1),
            cause: RecoveryCause::TransportFailure(
                "Device session transport failed: unplugged".into()
            ),
        }
    );
    assert_eq!(
        slot.snapshot.runtime.last_error(),
        Some("Device session transport failed: unplugged")
    );
    let Some(SlotStep::Recover { device, cause }) = steps.pop() else {
        panic!("a lost session asks for a recovery");
    };
    assert_eq!(
        self::steps(slot.run(SlotEvent::RecoveryRequested {
            device,
            cause,
            reply: Ok(4),
        })),
        vec![SlotStep::ReportFailure(
            "Device session transport failed: unplugged".into()
        )]
    );
}

#[test]
fn kernel_events_are_taken_in_and_a_revocation_ends_the_display() {
    let mut slot = slot();
    let steps_now = steps(slot.run(SlotEvent::Kernel(Ok(KernelDisplayEvent::Revoked))));
    assert_eq!(
        steps_now.last(),
        Some(&SlotStep::Terminal("CastKMS grant was revoked".into()))
    );
    assert_eq!(slot.snapshot.grant_state, DisplayGrantState::Revoked);

    let mut slot = self::slot();
    let error = KernelDisplayError::new("observe capture output", "lost");
    assert_eq!(
        steps(slot.run(SlotEvent::Kernel(Err(error)))),
        vec![
            SlotStep::Publish,
            SlotStep::Terminal("observe capture output: lost".into()),
        ]
    );
    assert_eq!(slot.snapshot.runtime.topology(), DisplayTopology::Unknown);

    let mut slot = self::slot();
    let steps_now = steps(slot.run(SlotEvent::Kernel(Ok(KernelDisplayEvent::MediaFailed {
        media_generation: None,
        error: "renderer stopped".into(),
    }))));
    assert_eq!(
        steps_now.last(),
        Some(&SlotStep::ReportFailure("renderer stopped".into()))
    );
}

#[test]
fn failed_and_stopped_recoveries_end_the_display() {
    let mut slot = slot();
    let current = device(DeviceAvailability::Available, 2, 2);
    let failed = || {
        SlotEvent::Recovery(Some(DeviceSessionRecoveryEvent::Failed {
            request_generation: 1,
            device: device(DeviceAvailability::Available, 2, 2),
            error: "no backend".into(),
        }))
    };
    assert!(steps(slot.run(failed())).is_empty());
    slot.run(SlotEvent::UpdateDevice(current.clone()));
    slot.run(SlotEvent::RecoveryRequested {
        device: current,
        cause: RecoveryCause::DeviceUpdate,
        reply: Ok(1),
    });
    assert_eq!(
        steps(slot.run(failed())),
        vec![
            SlotStep::Publish,
            SlotStep::Terminal("Device-session recovery failed: no backend".into()),
        ]
    );
    assert_eq!(
        steps(slot.run(SlotEvent::Recovery(None))),
        vec![
            SlotStep::Publish,
            SlotStep::Terminal("Device-session recovery coordinator stopped".into()),
        ]
    );
}

#[test]
fn media_is_published_only_when_it_changes() {
    let mut slot = slot();
    let running = || SlotEvent::Media {
        generation: 1,
        status: MediaStatus::Running,
    };
    assert_eq!(steps(slot.run(running())), vec![SlotStep::Publish]);
    assert!(steps(slot.run(running())).is_empty());
}

#[test]
fn a_display_ends_with_a_reason() {
    let mut slot = slot();
    for event in [SlotEvent::OwnerDropped, SlotEvent::CommandsClosed] {
        assert!(matches!(
            slot.run(event),
            SlotFlow::Exit(SlotExit::Shutdown)
        ));
    }
    let SlotFlow::Exit(exit) =
        slot.run(SlotEvent::Remove(DeviceSessionStopReason::DisplayRemoved))
    else {
        panic!("the removal was ignored");
    };
    assert_eq!(finish(exit).media_reason, MediaStopReason::DisplayRemoved);
    let SlotFlow::Exit(exit) = slot.run(SlotEvent::PolicyEnded(None)) else {
        panic!("the policy was ignored");
    };
    let end = finish(exit);
    assert_eq!(end.reason, DeviceSessionStopReason::DisplayRemoved);
    assert_eq!(
        end.terminal_error.as_deref(),
        Some("media recovery policy stopped unexpectedly")
    );
    assert_eq!(
        finish(SlotExit::Shutdown).media_reason,
        MediaStopReason::BackendShutdown
    );
    assert!(removal_result(None, None, None).is_ok());
    let error = removal_result(None, Some("stuck".into()), None).unwrap_err();
    assert_eq!(error.media.as_deref(), Some("stuck"));
}

#[test]
fn a_removal_tells_how_the_display_ended() {
    let stuck = || removal_result(None, None, Some("busy".into()));
    assert_eq!(removal_ended(true, Some(Ok(())), Ok(())), Ok(()));
    assert_eq!(
        removal_ended(true, Some(stuck()), Ok(())),
        Err(CastDisplaySlotActorError::Cleanup(stuck().unwrap_err()))
    );
    assert_eq!(
        removal_ended(true, Some(stuck()), Err("panicked".into())),
        Err(CastDisplaySlotActorError::Join("panicked".into()))
    );
    assert_eq!(
        removal_ended(true, None, Ok(())),
        Err(CastDisplaySlotActorError::Stopped)
    );
    assert_eq!(
        removal_ended(false, Some(Ok(())), Ok(())),
        Err(CastDisplaySlotActorError::Stopped)
    );
}

/// The actions of an end whose parts are answered so.
fn end_of(exit: SlotExit, parts: [Result<(), String>; 3]) -> Vec<EndAction> {
    let mut end = DisplayEnd::begin(exit);
    let mut actions = Vec::new();
    for part in parts {
        actions.push(end.action());
        // The output is not free yet, and nothing is told.
        end.proceed(EndReply::Released);
        end.proceed(EndReply::Told);
        end.proceed(EndReply::Done(part));
    }
    actions.push(end.action());
    end.proceed(EndReply::Released);
    actions.push(end.action());
    end.proceed(EndReply::Told);
    assert_eq!(end.action(), EndAction::Nothing);
    actions
}

#[test]
fn displays_end_in_order() {
    let failed = SlotExit::Terminal("lost".into());
    assert_eq!(
        end_of(failed, [Ok(()), Err("stuck \"on\"".into()), Ok(())]),
        vec![
            EndAction::EndRecovery,
            EndAction::EndMedia {
                reason: DeviceSessionStopReason::DisplayRemoved,
                media_reason: MediaStopReason::DisplayRemoved,
            },
            EndAction::Detach,
            EndAction::ReleaseOutput,
            EndAction::AnnounceFailure {
                error: "lost".into(),
                cleanup_error: Some(
                    "remove cast display failed (media=Some(\"stuck \\\"on\\\"\"), detach=None)"
                        .into()
                ),
            },
        ]
    );
}

#[test]
fn outputs_are_free_before_the_end_is_told() {
    let removed = SlotExit::Remove(DeviceSessionStopReason::DaemonShutdown);
    let actions = end_of(removed, [Err("recovery".into()), Ok(()), Err("busy".into())]);
    assert_eq!(actions[3], EndAction::ReleaseOutput);
    let EndAction::Answer(Err(error)) = &actions[4] else {
        panic!("the leftovers are not told");
    };
    assert_eq!(error.recovery.as_deref(), Some("recovery"));
    assert_eq!(error.detach.as_deref(), Some("busy"));
    assert_eq!(
        CastDisplaySlotActorError::Cleanup(removal_result(None, None, Some("busy".into())).unwrap_err())
            .to_text(),
        "remove cast display failed (media=None, detach=Some(\"busy\"))"
    );
    let actions = end_of(SlotExit::Shutdown, [Ok(()), Ok(()), Ok(())]);
    assert_eq!(
        actions[1],
        EndAction::EndMedia {
            reason: DeviceSessionStopReason::DaemonShutdown,
            media_reason: MediaStopReason::BackendShutdown,
        }
    );
    assert_eq!(actions[4], EndAction::Note(None));
    assert_eq!(
        CastDisplaySlotActorError::Stopped.to_text(),
        "cast-display slot actor stopped"
    );
    assert_eq!(
        CastDisplaySlotActorError::Join("panicked".into()).to_text(),
        "cast-display slot actor task failed: panicked"
    );
}
