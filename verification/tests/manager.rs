use pronk::device_session_port::DeviceSessionStopReason;
use pronk::display::setup::{DisplaySetupError, DisplaySetupOperationError};
use pronk::display::{AddedCastDisplay, CastDisplayId, DisplaySetupStage};
use pronk::manager::backend_worker::{
    collect_worker_results, run_backend_worker, BackendShutdownReport, WorkerAction, WorkerEvent,
    WorkerResult,
};
use pronk::manager::display_lifecycle::{
    DeviceTarget, ManagedDisplayPhase, ManagedDisplayRecord, ManagedDisplays, RemovalRequest,
    SetupJoin, StartDecision, MAX_RETAINED_SETUP_OPERATIONS,
};
use pronk::manager::inventory::{fits, AggregateError};
use pronk::manager::publication::publish_inventory_changes;
use pronk::manager::runtime::{
    output_reserved, refresh_configured_displays, run_manager, Announcement, BackendReaction,
    BackendWorkerMessage, ManagerCommand, ManagerEvent, ManagerFlow, ManagerReply,
    ManagerRuntimeState, SlotReport,
};
use pronk::manager::shutdown::{
    shutdown_displays, FinalRemoval, ManagerShutdown, ShutdownEvent, ShutdownFlow, ShutdownPhase,
};
use pronk::manager::{
    create_session, join_task_until, recovery_selection, reserve_display_slot, shutdown,
    validate_backends, InventoryEvent, ManagerActorError, ManagerStartError, ManagerTaskError,
    OutputInventoryProviderError, OutputReservationError, RemoveManagedDisplayError,
    ReserveDisplaySlotError, ResolveDeviceError, StartDisplaySetupError, TaskOutcome, WaitOutcome,
    MAX_INSTALLED_BACKENDS,
};
use pronk::protocol::{
    BackendDevice, BackendSupervisorEvent, DeviceAvailability, DeviceInfo, DeviceInventorySnapshot,
    DeviceSelection,
};

fn display(seed: u8) -> CastDisplayId {
    CastDisplayId::from_random_bytes([seed; 16])
}

fn selection(device_id: &str) -> DeviceSelection {
    DeviceSelection {
        backend_id: "mock".into(),
        device_id: device_id.into(),
        connection_generation: 1,
        discovery_generation: 1,
        device_revision: 1,
        defect: None,
    }
}

fn device(device_id: &str) -> DeviceInfo {
    DeviceInfo {
        backend_id: "mock".into(),
        device_id: device_id.into(),
        display_name: "TV".into(),
        availability: DeviceAvailability::Available,
        connection_generation: 1,
        discovery_generation: 1,
        device_revision: 1,
        metadata: Vec::new(),
    }
}

fn connected() -> BackendSupervisorEvent {
    BackendSupervisorEvent::Connected {
        connection_generation: 1,
        inventory: DeviceInventorySnapshot {
            discovery_generation: 1,
            revision: 1,
            devices: vec![BackendDevice {
                backend_id: "mock".into(),
                device_id: "tv".into(),
                display_name: "TV".into(),
                availability: DeviceAvailability::Available,
                metadata: Vec::new(),
                defect: None,
            }],
        },
    }
}

fn manager() -> ManagerRuntimeState {
    let mut state = ManagerRuntimeState::new(vec!["mock".into()]);
    let ManagerFlow::Inventory { reaction, closed } = run_manager(
        &mut state,
        ManagerEvent::Backend(Some(BackendWorkerMessage::Event {
            backend_id: "mock".into(),
            event: connected(),
        })),
    ) else {
        panic!("the backend was ignored");
    };
    assert!(!closed);
    assert!(matches!(reaction, BackendReaction::Publish(events) if events.len() == 1));
    state
}

fn ask(state: &mut ManagerRuntimeState, command: ManagerCommand) -> ManagerReply {
    match run_manager(state, ManagerEvent::Command(Some(command))) {
        ManagerFlow::Reply(reply) => reply,
        flow => panic!("no reply: {flow:?}"),
    }
}

fn add(state: &mut ManagerRuntimeState, seed: u8, device_id: &str) -> CastDisplayId {
    let ManagerReply::Start(Ok(StartDecision::Spawn(target))) = ask(
        state,
        ManagerCommand::StartDisplaySetup {
            selection: selection(device_id),
        },
    ) else {
        panic!("the device is taken");
    };
    state.displays.setup_spawned(display(seed), target).unwrap();
    display(seed)
}

fn join_added(state: &mut ManagerRuntimeState, seed: u8, device_id: &str) -> CastDisplayId {
    let display_id = add(state, seed, device_id);
    run_manager(
        state,
        ManagerEvent::SetupJoined {
            display_id,
            join: SetupJoin::Added { owner: Ok(()) },
        },
    );
    display_id
}

#[test]
fn removing_during_a_setup_waits_for_its_cleanup() {
    let mut record = ManagedDisplayRecord {
        display_id: display(1),
        target: DeviceTarget {
            backend_id: "backend".into(),
            device_id: "device".into(),
        },
        phase: ManagedDisplayPhase::SettingUp,
    };
    assert_eq!(
        record.request_removal(1),
        RemovalRequest::Queued { cancel_setup: true }
    );
    assert_eq!(
        record.request_removal(2),
        RemovalRequest::Queued {
            cancel_setup: false
        }
    );
    assert_eq!(
        record.phase,
        ManagedDisplayPhase::CancellingSetup {
            waiters: vec![1, 2]
        }
    );

    let mut state = manager();
    let display_id = add(&mut state, 1, "tv");
    for waiter in [1, 2] {
        assert!(matches!(
            ask(
                &mut state,
                ManagerCommand::RemoveDisplay { display_id, waiter }
            ),
            ManagerReply::Removal(RemovalRequest::Queued { .. })
        ));
    }
    let ManagerFlow::Joined(outcome) = run_manager(
        &mut state,
        ManagerEvent::SetupJoined {
            display_id,
            join: SetupJoin::NotAdded {
                clean: true,
                error: "display setup was cancelled".into(),
            },
        },
    ) else {
        panic!("the setup was ignored");
    };
    assert!(!outcome.announce);
    assert_eq!(outcome.waiters, vec![1, 2]);
    assert_eq!(outcome.answer, Ok(()));
}

#[test]
fn a_display_that_was_cancelled_too_late_is_removed_at_once() {
    let mut state = manager();
    let display_id = add(&mut state, 1, "tv");
    ask(
        &mut state,
        ManagerCommand::RemoveDisplay {
            display_id,
            waiter: 7,
        },
    );
    let ManagerFlow::Joined(outcome) = run_manager(
        &mut state,
        ManagerEvent::SetupJoined {
            display_id,
            join: SetupJoin::Added { owner: Ok(()) },
        },
    ) else {
        panic!("the setup was ignored");
    };
    assert!(outcome.announce && outcome.start_removal);
    assert!(outcome.waiters.is_empty());
    let ManagerFlow::Joined(outcome) = run_manager(
        &mut state,
        ManagerEvent::RemovalJoined {
            display_id,
            result: Err("busy".into()),
        },
    ) else {
        panic!("the removal was ignored");
    };
    assert_eq!(outcome.waiters, vec![7]);
    assert_eq!(
        outcome.answer,
        Err(RemoveManagedDisplayError::Cleanup("busy".into()))
    );
}

#[test]
fn a_device_has_one_setup_at_a_time() {
    let mut state = manager();
    let display_id = add(&mut state, 1, "tv");
    assert!(matches!(
        ask(
            &mut state,
            ManagerCommand::StartDisplaySetup {
                selection: selection("tv")
            }
        ),
        ManagerReply::Start(Ok(StartDecision::Existing(existing))) if existing == display_id
    ));
    let mut broken = selection("tv");
    broken.defect = Some("no backend".into());
    assert!(matches!(
        ask(
            &mut state,
            ManagerCommand::StartDisplaySetup { selection: broken }
        ),
        ManagerReply::Start(Err(StartDisplaySetupError::InvalidSelection(_)))
    ));
}

#[test]
fn setups_are_retained_up_to_a_limit() {
    let mut displays = ManagedDisplays::new();
    for index in 0..MAX_RETAINED_SETUP_OPERATIONS {
        let name = format!("tv-{index}");
        let Ok(StartDecision::Spawn(target)) =
            displays.start_managed_display_setup(&selection(&name))
        else {
            panic!("the device is taken");
        };
        let mut random = [0u8; 16];
        random[0] = (index % 256) as u8;
        random[1] = (index / 256) as u8;
        displays
            .setup_spawned(CastDisplayId::from_random_bytes(random), target)
            .unwrap();
    }
    assert!(matches!(
        displays.start_managed_display_setup(&selection("one-more")),
        Err(StartDisplaySetupError::TooManyOperations)
    ));
}

#[test]
fn displays_are_listed_and_forgotten() {
    let mut state = manager();
    let first = add(&mut state, 9, "tv");
    let second = add(&mut state, 2, "den");
    for display_id in [first, second] {
        run_manager(
            &mut state,
            ManagerEvent::SetupJoined {
                display_id,
                join: SetupJoin::Added { owner: Ok(()) },
            },
        );
    }
    assert!(matches!(
        ask(&mut state, ManagerCommand::ListDisplays),
        ManagerReply::Displays(active) if active == vec![second, first]
    ));
    assert!(matches!(
        ask(&mut state, ManagerCommand::GetDisplay { display_id: first }),
        ManagerReply::Display(true)
    ));
    assert!(matches!(
        run_manager(
            &mut state,
            ManagerEvent::Slot(Some((first, SlotReport::StateChanged)))
        ),
        ManagerFlow::Announce(Some(Announcement::StateChanged))
    ));
    assert!(matches!(
        run_manager(
            &mut state,
            ManagerEvent::Slot(Some((first, SlotReport::TerminalFailure)))
        ),
        ManagerFlow::Announce(Some(Announcement::Removed))
    ));
    assert!(matches!(
        run_manager(
            &mut state,
            ManagerEvent::Slot(Some((first, SlotReport::StateChanged)))
        ),
        ManagerFlow::Announce(None)
    ));
    assert!(matches!(
        ask(
            &mut state,
            ManagerCommand::ForgetDisplaySetupOperation {
                display_id: second,
                stage: DisplaySetupStage::Added,
            }
        ),
        ManagerReply::Forgotten(false)
    ));
    assert!(matches!(
        ask(
            &mut state,
            ManagerCommand::ForgetDisplaySetupOperation {
                display_id: first,
                stage: DisplaySetupStage::Added,
            }
        ),
        ManagerReply::Forgotten(true)
    ));
    assert!(matches!(
        ask(
            &mut state,
            ManagerCommand::GetDisplaySetupOperation { display_id: first }
        ),
        ManagerReply::Operation(false)
    ));
    assert!(matches!(
        ask(
            &mut state,
            ManagerCommand::RemoveDisplay {
                display_id: first,
                waiter: 1,
            }
        ),
        ManagerReply::Removal(RemovalRequest::Complete)
    ));
    assert!(matches!(
        ask(
            &mut state,
            ManagerCommand::CancelDisplaySetup {
                display_id: second,
                stage: DisplaySetupStage::Added,
            }
        ),
        ManagerReply::Cancel(false)
    ));
}

#[test]
fn devices_resolve_while_their_backend_has_a_worker() {
    let mut state = manager();
    assert!(matches!(
        ask(
            &mut state,
            ManagerCommand::ResolveDevice {
                selection: selection("tv")
            }
        ),
        ManagerReply::Resolved(Ok(found)) if found == device("tv")
    ));
    assert!(matches!(
        ask(
            &mut state,
            ManagerCommand::ReserveDisplaySlot {
                selection: selection("missing")
            }
        ),
        ManagerReply::Reserve(Err(ReserveDisplaySlotError::Device(
            ResolveDeviceError::NotFound { .. }
        )))
    ));
    state.workers.clear();
    assert!(matches!(
        ask(
            &mut state,
            ManagerCommand::ResolveDevice {
                selection: selection("tv")
            }
        ),
        ManagerReply::Resolved(Err(ResolveDeviceError::BackendUnavailable { .. }))
    ));
    assert!(matches!(
        ask(&mut state, ManagerCommand::ListDevices),
        ManagerReply::Devices(snapshot) if snapshot.devices == vec![device("tv")]
    ));
}

#[test]
fn lost_backends_are_published() {
    let mut state = manager();
    assert!(matches!(
        run_manager(
            &mut state,
            ManagerEvent::Backend(Some(BackendWorkerMessage::Event {
                backend_id: "other".into(),
                event: connected(),
            }))
        ),
        ManagerFlow::Inventory {
            reaction: BackendReaction::Rejected(_),
            ..
        }
    ));
    assert!(matches!(
        run_manager(
            &mut state,
            ManagerEvent::Backend(Some(BackendWorkerMessage::Stopped {
                backend_id: "mock".into()
            }))
        ),
        ManagerFlow::Inventory {
            reaction: BackendReaction::Publish(events),
            closed: false,
        } if events.len() == 1
    ));
    assert!(matches!(
        run_manager(&mut state, ManagerEvent::Backend(None)),
        ManagerFlow::Inventory {
            reaction: BackendReaction::Publish(events),
            closed: true,
        } if events.is_empty()
    ));
    assert!(matches!(
        run_manager(&mut state, ManagerEvent::OwnerShutdown { waiting: true }),
        ManagerFlow::Stop { waiting: true }
    ));
    assert!(matches!(
        run_manager(&mut state, ManagerEvent::Command(None)),
        ManagerFlow::Stop { waiting: false }
    ));
}

#[test]
fn only_displays_of_the_changed_device_are_refreshed() {
    let mut state = manager();
    join_added(&mut state, 1, "tv");
    join_added(&mut state, 2, "den");
    let displays = vec![(display(1), device("tv")), (display(2), device("den"))];
    let mut renamed = device("den");
    renamed.display_name = "Den TV".into();
    let change = InventoryEvent::DeviceChanged {
        inventory_revision: 5,
        device: renamed.clone(),
    };
    let updates = refresh_configured_displays(&state.displays, &displays, &change);
    assert_eq!(updates, vec![(display(2), renamed)]);

    // A display that is being removed does not follow its device any more.
    ask(
        &mut state,
        ManagerCommand::RemoveDisplay {
            display_id: display(2),
            waiter: 1,
        },
    );
    assert!(refresh_configured_displays(&state.displays, &displays, &change).is_empty());
}

#[test]
fn changes_are_sent_before_displays_follow() {
    let mut state = manager();
    join_added(&mut state, 1, "tv");
    let displays = vec![(display(1), device("tv"))];
    let change = |name: &str, inventory_revision: u64| {
        let mut device = device("tv");
        device.display_name = name.into();
        InventoryEvent::DeviceChanged {
            inventory_revision,
            device,
        }
    };
    assert!(publish_inventory_changes(Vec::new()).is_none());

    let changes = vec![change("first", 5), change("second", 6), change("third", 7)];
    let sending = publish_inventory_changes(changes).unwrap();
    assert_eq!(sending.change, change("first", 5));
    let sent = sending.sent(true).unwrap();
    let (updates, next) = sent.refresh(&state.displays, &displays);
    assert_eq!(updates.len(), 1);
    assert_eq!(updates[0].0, display(1));
    assert_eq!(updates[0].1.display_name, "first");

    let sending = next.unwrap();
    assert_eq!(sending.change, change("second", 6));
    assert_eq!(sending.rest, vec![change("third", 7)]);
    assert_eq!(
        sending.sent(false).unwrap_err().to_text(),
        "inventory signal consumer stopped"
    );

    let last = publish_inventory_changes(vec![change("third", 7)]).unwrap();
    let (updates, next) = last.sent(true).unwrap().refresh(&state.displays, &displays);
    assert_eq!(updates[0].1.display_name, "third");
    assert!(next.is_none());
}

#[test]
fn added_displays_start_with_the_device_as_it_is_known() {
    let mut state = manager();
    let mut added = AddedCastDisplay {
        display_id: display(1),
        state_revision: 3,
        device: device("tv"),
    };
    assert!(!state.refresh_added(&mut added));
    assert_eq!(added.state_revision, 3);

    run_manager(
        &mut state,
        ManagerEvent::Backend(Some(BackendWorkerMessage::Stopped {
            backend_id: "mock".into(),
        })),
    );
    assert!(state.refresh_added(&mut added));
    assert_eq!(added.display_id, display(1));
    assert_eq!(added.device.availability, DeviceAvailability::Unavailable);
    assert_eq!(added.state_revision, 4);

    // A device that the inventory does not know cannot be reached either.
    let mut unknown = AddedCastDisplay {
        display_id: display(2),
        state_revision: 3,
        device: device("den"),
    };
    assert!(state.refresh_added(&mut unknown));
    assert_eq!(unknown.device.availability, DeviceAvailability::Unavailable);
    assert_eq!(unknown.device.device_revision, 2);
}

#[test]
fn ordinary_events_fit() {
    assert!(fits(&connected()));
    assert!(fits(&BackendSupervisorEvent::Connecting {
        connection_generation: 1
    }));
}

#[test]
fn completed_worker_reports_survive_an_earlier_timeout() {
    let report = collect_worker_results(vec![
        ("stalled".into(), WorkerResult::TimedOut),
        (
            "completed".into(),
            WorkerResult::Report(BackendShutdownReport {
                last_connection_generation: None,
                graceful: true,
                errors: Vec::new(),
            }),
        ),
        ("broken".into(), WorkerResult::Failed("supervisor".into())),
    ]);
    assert_eq!(
        report.errors.get("stalled").map(String::as_str),
        Some("shutdown timed out")
    );
    assert_eq!(
        report.errors.get("broken").map(String::as_str),
        Some("supervisor")
    );
    assert!(report.backend_reports.contains("completed"));
    assert!(!report.backend_reports.contains("stalled"));
}

#[test]
fn displays_that_do_not_clean_up_are_reported() {
    let mut report = collect_worker_results(Vec::new());
    shutdown_displays(
        &mut report,
        &vec![
            FinalRemoval::Ended {
                display_id: display(1),
                result: Ok(()),
            },
            FinalRemoval::Ended {
                display_id: display(2),
                result: Err("stuck".into()),
            },
            FinalRemoval::TaskFailed {
                task: "17".into(),
                error: "panicked".into(),
            },
        ],
    );
    assert_eq!(report.errors.len(), 2);
    assert_eq!(
        report.errors.get(&format!("display:{}", display(2).to_text())),
        Some(&"stuck".to_string())
    );
    assert_eq!(
        report.errors.get("display-cleanup-task:17"),
        Some(&"panicked".to_string())
    );
}

#[test]
fn the_manager_ends_in_order() {
    let mut state = manager();
    let active = join_added(&mut state, 1, "tv");
    let removing = join_added(&mut state, 2, "den");
    ask(
        &mut state,
        ManagerCommand::RemoveDisplay {
            display_id: removing,
            waiter: 20,
        },
    );
    let cancelled = add(&mut state, 3, "hall");
    ask(
        &mut state,
        ManagerCommand::RemoveDisplay {
            display_id: cancelled,
            waiter: 30,
        },
    );
    let late = add(&mut state, 4, "attic");
    let failing = add(&mut state, 5, "cellar");

    let stages = vec![
        (active, DisplaySetupStage::Added),
        (removing, DisplaySetupStage::Added),
        (cancelled, DisplaySetupStage::Validating),
        (late, DisplaySetupStage::Validating),
        (failing, DisplaySetupStage::Validating),
        (display(9), DisplaySetupStage::Validating),
    ];
    let (mut end, cancel) = ManagerShutdown::begin(&state.displays, Ok(true), &stages);
    assert_eq!(cancel, vec![cancelled, late, failing]);

    // Nothing else is waited for before the setups have ended.
    assert!(matches!(
        end.proceed(&mut state.displays, ShutdownEvent::Removal(None)),
        ShutdownFlow::Wait
    ));
    let added = |display_id| {
        ShutdownEvent::Setup(Some((display_id, SetupJoin::Added { owner: Ok(()) })))
    };
    assert!(matches!(
        end.proceed(&mut state.displays, added(cancelled)),
        ShutdownFlow::Joined(outcome)
            if outcome.start_removal && !outcome.announce && outcome.waiters.is_empty()
    ));
    assert!(matches!(
        end.proceed(&mut state.displays, added(late)),
        ShutdownFlow::Joined(outcome) if !outcome.start_removal && !outcome.announce
    ));
    end.proceed(
        &mut state.displays,
        ShutdownEvent::Setup(Some((
            failing,
            SetupJoin::NotAdded {
                clean: true,
                error: "cancelled".into(),
            },
        ))),
    );
    assert!(matches!(
        end.proceed(&mut state.displays, ShutdownEvent::Setup(None)),
        ShutdownFlow::AwaitRemovals
    ));

    assert!(matches!(
        end.proceed(
            &mut state.displays,
            ShutdownEvent::Removal(Some((removing, Err("stuck".into()))))
        ),
        ShutdownFlow::Joined(outcome)
            if outcome.waiters == vec![20]
                && !outcome.announce
                && outcome.answer
                    == Err(RemoveManagedDisplayError::Cleanup("stuck".into()))
    ));
    assert!(matches!(
        end.proceed(
            &mut state.displays,
            ShutdownEvent::Removal(Some((cancelled, Ok(()))))
        ),
        ShutdownFlow::Joined(outcome) if outcome.waiters == vec![30] && outcome.answer.is_ok()
    ));
    let ShutdownFlow::Remove { displays, reason } =
        end.proceed(&mut state.displays, ShutdownEvent::Removal(None))
    else {
        panic!("the displays are kept");
    };
    assert_eq!(displays, vec![active, late]);
    assert_eq!(reason, DeviceSessionStopReason::DaemonShutdown);
    assert!(state.displays.active_displays().is_empty());
    assert!(!state.displays.contains(failing));

    for (display_id, result) in [(late, Err("lost".to_string())), (active, Ok(()))] {
        assert!(matches!(
            end.proceed(
                &mut state.displays,
                ShutdownEvent::Display(Some(FinalRemoval::Ended { display_id, result }))
            ),
            ShutdownFlow::Wait
        ));
    }
    assert!(matches!(
        end.proceed(&mut state.displays, ShutdownEvent::Display(None)),
        ShutdownFlow::EndWorkers
    ));
    let ShutdownFlow::Report { report, waiting } = end.proceed(
        &mut state.displays,
        ShutdownEvent::Workers(vec![("mock".into(), WorkerResult::TimedOut)]),
    ) else {
        panic!("there is no report");
    };
    assert!(waiting);
    assert_eq!(end.phase, ShutdownPhase::Ended);
    assert_eq!(report.errors.len(), 2);
    assert_eq!(
        report.errors.get("mock").map(String::as_str),
        Some("shutdown timed out")
    );
    assert_eq!(
        report
            .errors
            .get(&format!("display:{}", late.to_text()))
            .map(String::as_str),
        Some("lost")
    );
}

#[test]
fn a_failed_manager_ends_with_its_error() {
    let mut state = manager();
    let (mut end, cancel) = ManagerShutdown::begin(
        &state.displays,
        Err(ManagerTaskError::EventConsumerStopped),
        &Vec::new(),
    );
    assert!(cancel.is_empty());
    end.proceed(&mut state.displays, ShutdownEvent::Setup(None));
    end.proceed(&mut state.displays, ShutdownEvent::Removal(None));
    end.proceed(&mut state.displays, ShutdownEvent::Display(None));
    assert!(matches!(
        end.proceed(&mut state.displays, ShutdownEvent::Workers(Vec::new())),
        ShutdownFlow::Fail(ManagerTaskError::EventConsumerStopped)
    ));
}

#[test]
fn a_worker_ends_with_its_backend_or_its_manager() {
    assert_eq!(
        run_backend_worker(WorkerEvent::Supervisor { open: true }),
        WorkerAction::Forward
    );
    assert_eq!(
        run_backend_worker(WorkerEvent::Supervisor { open: false }),
        WorkerAction::ReportStopped
    );
    assert_eq!(
        run_backend_worker(WorkerEvent::Sent { taken: true }),
        WorkerAction::Wait
    );
    assert_eq!(
        run_backend_worker(WorkerEvent::Sent { taken: false }),
        WorkerAction::ShutDown
    );
    assert_eq!(
        run_backend_worker(WorkerEvent::ShutdownRequested),
        WorkerAction::ShutDown
    );
}

#[test]
fn backends_are_few_and_different() {
    let names = |count: usize| (0..count).map(|index| format!("backend-{index}")).collect::<Vec<_>>();
    assert!(validate_backends(&names(MAX_INSTALLED_BACKENDS)).is_ok());
    assert!(matches!(
        validate_backends(&names(MAX_INSTALLED_BACKENDS + 1)),
        Err(ManagerStartError::TooManyBackends(count)) if count == MAX_INSTALLED_BACKENDS + 1
    ));
    assert!(matches!(
        validate_backends(&vec!["a".into(), "b".into(), "a".into(), "b".into()]),
        Err(ManagerStartError::DuplicateBackendId(id)) if id == "a"
    ));
}

#[test]
fn sessions_and_outputs_are_asked_for_exactly() {
    let request = create_session(device("tv"), "session".into(), 3, 5);
    assert_eq!(request.device_id, "tv");
    assert_eq!(request.connection_generation, 1);
    assert_eq!(request.session_generation, 3);
    assert_eq!(request.requested_features, 5);
    assert!(recovery_selection("mock", "tv", &device("tv")).is_ok());
    assert!(matches!(
        recovery_selection("mock", "den", &device("tv")),
        Err(ResolveDeviceError::InvalidSelection(_))
    ));
    assert_eq!(output_reserved(device("tv"), Ok(())), Ok(device("tv")));
    assert_eq!(
        output_reserved(device("tv"), Err(OutputReservationError::CapacityExhausted)),
        Err(ReserveDisplaySlotError::Output(
            OutputReservationError::CapacityExhausted
        ))
    );
    assert_eq!(reserve_display_slot(Ok(Ok(4))), Ok(4));
    assert_eq!(
        reserve_display_slot::<u32>(Err("panicked".into())),
        Err(ReserveDisplaySlotError::DiscoveryTask("panicked".into()))
    );
    assert_eq!(
        reserve_display_slot::<u32>(Ok(Err(OutputInventoryProviderError::new("no card")))),
        Err(ReserveDisplaySlotError::Discovery(
            OutputInventoryProviderError::new("no card")
        ))
    );
}

#[test]
fn the_end_of_the_manager_is_told() {
    assert!(shutdown(WaitOutcome::Done).is_ok());
    assert_eq!(shutdown(WaitOutcome::Closed), Err(ManagerActorError::Stopped));
    assert_eq!(
        shutdown(WaitOutcome::TimedOut).unwrap_err().to_text(),
        "Pronk manager shutdown timed out"
    );
    assert!(join_task_until(TaskOutcome::Ended(Ok(()))).is_ok());
    assert_eq!(
        join_task_until(TaskOutcome::Ended(Err(ManagerTaskError::Aggregate(
            "full".into()
        ))))
        .unwrap_err()
        .to_text(),
        "Pronk manager failed: aggregate inventory failed: full"
    );
    assert_eq!(
        join_task_until(TaskOutcome::Crashed("panicked".into()))
            .unwrap_err()
            .to_text(),
        "Pronk manager task failed: panicked"
    );
    assert_eq!(
        join_task_until(TaskOutcome::Missing).unwrap_err().to_text(),
        "Pronk manager has stopped"
    );
    assert!(join_task_until(TaskOutcome::TimedOut).is_err());
}

#[test]
fn errors_name_devices_in_quotes() {
    let backend_id = || "mo\"ck".to_string();
    let device_id = || "tv".to_string();
    assert_eq!(
        ResolveDeviceError::NotFound {
            backend_id: backend_id(),
            device_id: device_id(),
        }
        .to_text(),
        r#"device "mo\"ck"/"tv" was not found"#
    );
    assert_eq!(
        ResolveDeviceError::StaleSelection {
            backend_id: backend_id(),
            device_id: device_id(),
        }
        .to_text(),
        r#"device "mo\"ck"/"tv" changed since it was selected"#
    );
    assert_eq!(
        ResolveDeviceError::Unavailable {
            backend_id: backend_id(),
            device_id: device_id(),
            availability: DeviceAvailability::Busy,
        }
        .to_text(),
        r#"device "mo\"ck"/"tv" is busy"#
    );
    assert_eq!(
        ResolveDeviceError::BackendUnavailable {
            backend_id: backend_id()
        }
        .to_text(),
        r#"backend "mo\"ck" is unavailable"#
    );
    assert_eq!(
        ResolveDeviceError::InvalidSelection("empty".into()).to_text(),
        "invalid device selection: empty"
    );
    assert_eq!(
        ReserveDisplaySlotError::Device(ResolveDeviceError::ManagerStopped).to_text(""),
        "cannot reserve a display for the selected Device: Pronk manager has stopped"
    );
    assert_eq!(
        ReserveDisplaySlotError::Output(OutputReservationError::CapacityExhausted)
            .to_text("no output is free"),
        "cannot reserve a CastKMS output: no output is free"
    );
    assert_eq!(
        ReserveDisplaySlotError::Discovery(OutputInventoryProviderError::new("denied")).to_text(""),
        "discover CastKMS outputs: denied"
    );
    assert_eq!(
        ReserveDisplaySlotError::DiscoveryTask("panicked".into()).to_text(""),
        "CastKMS output discovery task failed: panicked"
    );
    assert_eq!(
        ManagerStartError::TooManyBackends(33).to_text(),
        "configured 33 backends; limit is 32"
    );
    assert_eq!(
        ManagerStartError::DuplicateBackendId("mock".into()).to_text(),
        r#"backend ID "mock" is configured twice"#
    );
    assert_eq!(
        ManagerStartError::StartBackend {
            backend_id: "mock".into(),
            source: "denied".into(),
        }
        .to_text(),
        r#"start backend "mock": denied"#
    );
    assert_eq!(
        ManagerStartError::LoadPnpDatabase("missing".into()).to_text(),
        "load the trusted PNP manufacturer database: missing"
    );
}

#[test]
fn rejected_events_say_why() {
    assert_eq!(
        AggregateError::WrongBackendId {
            expected: "mock".into(),
            actual: "other".into(),
        }
        .to_text(),
        r#"device backend ID "other" does not match source "mock""#
    );
    assert_eq!(
        AggregateError::DuplicateDevice {
            backend_id: "mock".into(),
            device_id: "tv".into(),
        }
        .to_text(),
        r#"duplicate device "mock"/"tv""#
    );
    assert_eq!(
        AggregateError::TooManyDevices(300).to_text(),
        "aggregate contains 300 devices; limit is 256"
    );
    assert_eq!(
        AggregateError::UnexpectedConnectionGeneration {
            backend_id: "mock".into(),
            expected: 3,
            actual: 4,
        }
        .to_text(),
        r#"backend "mock" event has connection generation 4; expected 3"#
    );
    assert_eq!(
        AggregateError::ZeroGeneration.to_text(),
        "device inventory generation/revision must be nonzero"
    );
    assert_eq!(
        AggregateError::InvalidDevice("no name".into()).to_text(),
        "invalid device: no name"
    );
    assert_eq!(
        AggregateError::RevisionExhausted.to_text(),
        "public inventory revision is exhausted"
    );
}

#[test]
fn setups_that_failed_by_themselves_are_clean() {
    let cancelled = DisplaySetupOperationError::Setup(DisplaySetupError::Cancelled);
    assert_eq!(
        SetupJoin::not_added(&cancelled, ""),
        SetupJoin::NotAdded {
            clean: true,
            error: "display setup failed: display setup was cancelled".into(),
        }
    );
    let crashed = DisplaySetupOperationError::Task("panicked".into());
    assert_eq!(
        SetupJoin::not_added(&crashed, ""),
        SetupJoin::NotAdded {
            clean: false,
            error: "display setup task failed: panicked".into(),
        }
    );
    let finished = DisplaySetupOperationError::AlreadyFinished;
    assert_eq!(
        finished.to_text(""),
        "display setup operation was already finished"
    );
    let gone = DisplaySetupError::Device(ResolveDeviceError::ManagerStopped);
    assert_eq!(
        gone.to_text("unused"),
        "selected Device changed during display setup: Pronk manager has stopped"
    );
    let full = ReserveDisplaySlotError::Output(OutputReservationError::CapacityExhausted);
    assert_eq!(
        DisplaySetupError::Reserve(full).to_text("none is free"),
        "reserve a CastKMS output for the selected Device: \
         cannot reserve a CastKMS output: none is free"
    );
}
