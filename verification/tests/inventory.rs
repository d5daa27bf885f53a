use pronk::manager::inventory::{
    configured_device_update, AggregateError, AggregateInventory, ApplySupervisorOutcome,
};
use pronk::manager::{InventoryEvent, ResolveDeviceError};
use pronk::protocol::{
    BackendDevice, BackendDisconnectReason, BackendSupervisorEvent, DeviceAvailability,
    DeviceInventorySnapshot, DeviceSelection, MAX_PUBLIC_DEVICES,
};

fn backend_device(backend_id: &str, device_id: &str, name: &str) -> BackendDevice {
    BackendDevice {
        backend_id: backend_id.into(),
        device_id: device_id.into(),
        display_name: name.into(),
        availability: DeviceAvailability::Available,
        metadata: Vec::new(),
        defect: None,
    }
}

fn inventory(
    discovery_generation: u64,
    revision: u64,
    devices: Vec<BackendDevice>,
) -> DeviceInventorySnapshot {
    DeviceInventorySnapshot {
        discovery_generation,
        revision,
        devices,
    }
}

fn connected(
    connection_generation: u64,
    inventory: DeviceInventorySnapshot,
) -> BackendSupervisorEvent {
    BackendSupervisorEvent::Connected {
        connection_generation,
        inventory,
    }
}

fn changed(
    connection_generation: u64,
    inventory: DeviceInventorySnapshot,
) -> BackendSupervisorEvent {
    BackendSupervisorEvent::InventoryChanged {
        connection_generation,
        inventory,
    }
}

#[test]
fn aggregates_backends_with_one_ordered_public_revision() {
    let mut aggregate = AggregateInventory::default();
    let first = aggregate
        .apply_supervisor_event(
            "alpha",
            &connected(
                1,
                inventory(10, 2, vec![backend_device("alpha", "one", "One")]),
            ),
        )
        .unwrap();
    assert!(matches!(
        first,
        ApplySupervisorOutcome::Changed(ref events)
            if matches!(events.as_slice(), [InventoryEvent::DeviceAdded { inventory_revision: 1, .. }])
    ));
    aggregate
        .apply_supervisor_event(
            "beta",
            &connected(
                1,
                inventory(20, 4, vec![backend_device("beta", "two", "Two")]),
            ),
        )
        .unwrap();

    let snapshot = aggregate.snapshot();
    assert_eq!(snapshot.inventory_revision, 2);
    assert_eq!(snapshot.devices.len(), 2);
    assert_eq!(snapshot.devices[0].backend_id, "alpha");
    assert_eq!(snapshot.devices[1].backend_id, "beta");
}

#[test]
fn disconnect_and_reconnect_preserve_identity_with_new_generations() {
    let mut aggregate = AggregateInventory::default();
    aggregate
        .apply_supervisor_event(
            "mock",
            &connected(
                7,
                inventory(
                    3,
                    2,
                    vec![backend_device("mock", "living-room", "Living Room")],
                ),
            ),
        )
        .unwrap();
    let mut unavailable = inventory(
        3,
        2,
        vec![backend_device("mock", "living-room", "Living Room")],
    );
    unavailable.devices[0].availability = DeviceAvailability::Unavailable;
    let disconnect = BackendSupervisorEvent::Disconnected {
        connection_generation: 7,
        reason: BackendDisconnectReason::ConnectionClosed,
        unavailable_inventory: unavailable,
    };
    assert!(matches!(
        aggregate
            .apply_supervisor_event("mock", &disconnect)
            .unwrap(),
        ApplySupervisorOutcome::Changed(ref events)
            if matches!(events.as_slice(), [InventoryEvent::DeviceChanged { inventory_revision: 2, device }]
                if device.device_revision == 2
                    && device.availability == DeviceAvailability::Unavailable)
    ));

    aggregate
        .apply_supervisor_event(
            "mock",
            &BackendSupervisorEvent::Connecting {
                connection_generation: 8,
            },
        )
        .unwrap();
    assert_eq!(
        aggregate
            .apply_supervisor_event("mock", &changed(7, inventory(3, 3, Vec::new())))
            .unwrap(),
        ApplySupervisorOutcome::IgnoredStale
    );
    let reconnect = aggregate
        .apply_supervisor_event(
            "mock",
            &connected(
                8,
                inventory(
                    4,
                    2,
                    vec![backend_device("mock", "living-room", "Living Room")],
                ),
            ),
        )
        .unwrap();
    assert!(matches!(
        reconnect,
        ApplySupervisorOutcome::Changed(ref events)
            if matches!(events.as_slice(), [InventoryEvent::DeviceChanged { inventory_revision: 3, device }]
                if device.connection_generation == 8
                    && device.discovery_generation == 4
                    && device.device_revision == 3
                    && device.availability == DeviceAvailability::Available)
    ));
}

#[test]
fn unchanged_devices_keep_their_exact_device_revision() {
    let mut aggregate = AggregateInventory::default();
    aggregate
        .apply_supervisor_event(
            "mock",
            &connected(
                1,
                inventory(
                    1,
                    2,
                    vec![
                        backend_device("mock", "one", "One"),
                        backend_device("mock", "two", "Two"),
                    ],
                ),
            ),
        )
        .unwrap();
    let outcome = aggregate
        .apply_supervisor_event(
            "mock",
            &changed(
                1,
                inventory(
                    1,
                    3,
                    vec![
                        backend_device("mock", "one", "One renamed"),
                        backend_device("mock", "two", "Two"),
                    ],
                ),
            ),
        )
        .unwrap();
    assert!(matches!(
        outcome,
        ApplySupervisorOutcome::Changed(ref events)
            if matches!(events.as_slice(), [InventoryEvent::DeviceChanged { device, .. }]
                if device.device_id == "one" && device.device_revision == 3)
    ));
    let snapshot = aggregate.snapshot();
    assert_eq!(snapshot.devices[0].device_revision, 3);
    assert_eq!(snapshot.devices[1].device_revision, 2);
}

#[test]
fn readded_identity_gets_a_fresh_device_revision() {
    let mut aggregate = AggregateInventory::default();
    aggregate
        .apply_supervisor_event(
            "mock",
            &connected(
                1,
                inventory(
                    1,
                    1,
                    vec![backend_device("mock", "living-room", "Living Room")],
                ),
            ),
        )
        .unwrap();
    assert_eq!(aggregate.snapshot().devices[0].device_revision, 1);

    aggregate
        .apply_supervisor_event("mock", &changed(1, inventory(1, 2, Vec::new())))
        .unwrap();
    let readded = aggregate
        .apply_supervisor_event(
            "mock",
            &changed(
                1,
                inventory(
                    1,
                    3,
                    vec![backend_device("mock", "living-room", "Living Room")],
                ),
            ),
        )
        .unwrap();
    assert!(matches!(
        readded,
        ApplySupervisorOutcome::Changed(ref events)
            if matches!(events.as_slice(), [InventoryEvent::DeviceAdded { inventory_revision: 3, device }]
                if device.device_revision == 3)
    ));
}

#[test]
fn configured_device_state_survives_removal_and_tracks_readdition() {
    let mut aggregate = AggregateInventory::default();
    aggregate
        .apply_supervisor_event(
            "mock",
            &connected(
                1,
                inventory(
                    1,
                    1,
                    vec![backend_device("mock", "living-room", "Living Room")],
                ),
            ),
        )
        .unwrap();
    let current = aggregate.snapshot().devices.remove(0);
    let removal = aggregate
        .apply_supervisor_event("mock", &changed(1, inventory(1, 2, Vec::new())))
        .unwrap();
    let ApplySupervisorOutcome::Changed(removal_events) = removal else {
        panic!("Device removal was ignored");
    };
    let unavailable = configured_device_update(&current, &removal_events[0]).unwrap();
    assert_eq!(unavailable.display_name, "Living Room");
    assert_eq!(unavailable.availability, DeviceAvailability::Unavailable);
    assert_eq!(unavailable.device_revision, 2);
    assert_eq!(aggregate.configured_device(&current), unavailable);

    let readded = aggregate
        .apply_supervisor_event(
            "mock",
            &changed(
                1,
                inventory(2, 3, vec![backend_device("mock", "living-room", "Den TV")]),
            ),
        )
        .unwrap();
    let ApplySupervisorOutcome::Changed(readded_events) = readded else {
        panic!("Device readdition was ignored");
    };
    let available = configured_device_update(&unavailable, &readded_events[0]).unwrap();
    assert_eq!(available.display_name, "Den TV");
    assert_eq!(available.availability, DeviceAvailability::Available);
    assert_eq!(available.discovery_generation, 2);
    assert_eq!(available.device_revision, 3);

    let unrelated = InventoryEvent::DeviceRemoved {
        inventory_revision: 4,
        backend_id: "mock".into(),
        device_id: "bedroom".into(),
    };
    assert!(configured_device_update(&available, &unrelated).is_none());
}

#[test]
fn aggregate_bound_rejects_a_whole_snapshot_atomically() {
    let mut aggregate = AggregateInventory::default();
    let full: Vec<_> = (0..MAX_PUBLIC_DEVICES)
        .map(|index| backend_device("alpha", &format!("device-{index}"), "Device"))
        .collect();
    aggregate
        .apply_supervisor_event("alpha", &connected(1, inventory(1, 1, full)))
        .unwrap();
    let before = aggregate.snapshot();
    assert_eq!(
        aggregate
            .apply_supervisor_event(
                "beta",
                &connected(
                    1,
                    inventory(1, 1, vec![backend_device("beta", "extra", "Extra")]),
                ),
            )
            .unwrap_err(),
        AggregateError::TooManyDevices(MAX_PUBLIC_DEVICES + 1)
    );
    assert_eq!(aggregate.snapshot(), before);
}

fn stale_copy(selection: &DeviceSelection) -> DeviceSelection {
    DeviceSelection {
        backend_id: selection.backend_id.clone(),
        device_id: selection.device_id.clone(),
        connection_generation: selection.connection_generation,
        discovery_generation: selection.discovery_generation,
        device_revision: selection.device_revision,
        defect: None,
    }
}

#[test]
fn resolves_only_the_exact_available_device_revision() {
    let mut aggregate = AggregateInventory::default();
    aggregate
        .apply_supervisor_event(
            "mock",
            &connected(
                7,
                inventory(
                    11,
                    1,
                    vec![backend_device("mock", "living-room", "Living Room")],
                ),
            ),
        )
        .unwrap();
    let device = aggregate.snapshot().devices.remove(0);
    let selection = DeviceSelection::from_device(&device);
    assert_eq!(aggregate.resolve_device(&selection).unwrap(), device);

    for stale in [
        DeviceSelection {
            connection_generation: 8,
            ..stale_copy(&selection)
        },
        DeviceSelection {
            discovery_generation: 12,
            ..stale_copy(&selection)
        },
        DeviceSelection {
            device_revision: 2,
            ..stale_copy(&selection)
        },
    ] {
        assert!(matches!(
            aggregate.resolve_device(&stale),
            Err(ResolveDeviceError::StaleSelection { .. })
        ));
    }

    let mut unavailable = inventory(
        11,
        2,
        vec![backend_device("mock", "living-room", "Living Room")],
    );
    unavailable.devices[0].availability = DeviceAvailability::Busy;
    aggregate
        .apply_supervisor_event("mock", &changed(7, unavailable))
        .unwrap();
    let current = DeviceSelection::from_device(&aggregate.snapshot().devices[0]);
    assert!(matches!(
        aggregate.resolve_device(&current),
        Err(ResolveDeviceError::Unavailable {
            availability: DeviceAvailability::Busy,
            ..
        })
    ));
}

#[test]
fn unknown_and_invalid_selections_are_told_apart() {
    let aggregate = AggregateInventory::default();
    let mut selection = DeviceSelection {
        backend_id: "mock".into(),
        device_id: "missing".into(),
        connection_generation: 1,
        discovery_generation: 1,
        device_revision: 1,
        defect: None,
    };
    assert!(matches!(
        aggregate.resolve_device(&selection),
        Err(ResolveDeviceError::NotFound { .. })
    ));
    selection.defect = Some("empty device ID".into());
    assert_eq!(
        aggregate.resolve_device(&selection),
        Err(ResolveDeviceError::InvalidSelection("empty device ID".into()))
    );
}

#[test]
fn rejected_snapshots_say_what_is_wrong_and_change_nothing() {
    let mut aggregate = AggregateInventory::default();
    let mut apply = |event: BackendSupervisorEvent| {
        aggregate.apply_supervisor_event("mock", &event).unwrap_err()
    };
    assert_eq!(
        apply(connected(0, inventory(1, 1, Vec::new()))),
        AggregateError::ZeroGeneration
    );
    assert_eq!(
        apply(connected(1, inventory(0, 1, Vec::new()))),
        AggregateError::ZeroGeneration
    );
    let mut broken = backend_device("mock", "one", "One");
    broken.defect = Some("name is too long".into());
    assert_eq!(
        apply(connected(1, inventory(1, 1, vec![broken]))),
        AggregateError::InvalidDevice("name is too long".into())
    );
    assert_eq!(
        apply(connected(
            1,
            inventory(1, 1, vec![backend_device("other", "one", "One")])
        )),
        AggregateError::WrongBackendId {
            expected: "mock".into(),
            actual: "other".into(),
        }
    );
    assert_eq!(
        apply(connected(
            1,
            inventory(
                1,
                1,
                vec![
                    backend_device("mock", "one", "One"),
                    backend_device("mock", "one", "Again"),
                ]
            )
        )),
        AggregateError::DuplicateDevice {
            backend_id: "mock".into(),
            device_id: "one".into(),
        }
    );
    assert_eq!(aggregate.snapshot().devices.len(), 0);
    assert_eq!(aggregate.snapshot().inventory_revision, 0);
}

#[test]
fn a_snapshot_of_an_unannounced_connection_is_refused() {
    let mut aggregate = AggregateInventory::default();
    aggregate
        .apply_supervisor_event("mock", &connected(2, inventory(1, 1, Vec::new())))
        .unwrap();
    assert_eq!(
        aggregate
            .apply_supervisor_event("mock", &changed(3, inventory(1, 2, Vec::new())))
            .unwrap_err(),
        AggregateError::UnexpectedConnectionGeneration {
            backend_id: "mock".into(),
            expected: 2,
            actual: 3,
        }
    );
}

#[test]
fn lost_backends_withdraw_their_devices_once() {
    let mut aggregate = AggregateInventory::default();
    for backend in ["alpha", "beta"] {
        aggregate
            .apply_supervisor_event(
                backend,
                &connected(
                    1,
                    inventory(1, 1, vec![backend_device(backend, "tv", "TV")]),
                ),
            )
            .unwrap();
    }
    let lost = aggregate.mark_backend_unavailable("beta").unwrap();
    assert!(matches!(
        lost.as_slice(),
        [InventoryEvent::DeviceChanged { inventory_revision: 3, device }]
            if device.backend_id == "beta"
                && device.availability == DeviceAvailability::Unavailable
    ));
    assert!(aggregate.mark_backend_unavailable("beta").unwrap().is_empty());
    assert!(aggregate.mark_backend_unavailable("gamma").unwrap().is_empty());
    let rest = aggregate.mark_all_unavailable().unwrap();
    assert!(matches!(
        rest.as_slice(),
        [InventoryEvent::DeviceChanged { inventory_revision: 4, device }]
            if device.backend_id == "alpha"
    ));
    assert_eq!(aggregate.snapshot().inventory_revision, 4);
}

#[test]
fn devices_are_listed_in_the_order_of_their_identities() {
    let mut aggregate = AggregateInventory::default();
    aggregate
        .apply_supervisor_event(
            "mock",
            &connected(
                1,
                inventory(
                    1,
                    1,
                    vec![
                        backend_device("mock", "b", "B"),
                        backend_device("mock", "a", "A"),
                        backend_device("mock", "aa", "AA"),
                    ],
                ),
            ),
        )
        .unwrap();
    let listed: Vec<String> = aggregate
        .snapshot()
        .devices
        .iter()
        .map(|device| device.device_id.clone())
        .collect();
    assert_eq!(listed, vec!["a", "aa", "b"]);
}

#[test]
fn events_rebuild_the_inventory() {
    let mut aggregate = AggregateInventory::default();
    let mut followed = Vec::new();
    let steps = vec![
        vec![backend_device("mock", "a", "A"), backend_device("mock", "b", "B")],
        vec![backend_device("mock", "b", "B renamed")],
        vec![backend_device("mock", "b", "B renamed"), backend_device("mock", "c", "C")],
    ];
    for (index, devices) in steps.into_iter().enumerate() {
        let snapshot = inventory(1, index as u64 + 1, devices);
        let event = if index == 0 {
            connected(1, snapshot)
        } else {
            changed(1, snapshot)
        };
        let ApplySupervisorOutcome::Changed(events) =
            aggregate.apply_supervisor_event("mock", &event).unwrap()
        else {
            panic!("the snapshot was ignored");
        };
        for event in events {
            match event {
                InventoryEvent::DeviceAdded { device, .. } => followed.push(device),
                InventoryEvent::DeviceChanged { device, .. } => {
                    followed.retain(|known: &pronk::protocol::DeviceInfo| {
                        known.device_id != device.device_id
                    });
                    followed.push(device);
                }
                InventoryEvent::DeviceRemoved { device_id, .. } => {
                    followed.retain(|known| known.device_id != device_id)
                }
            }
        }
    }
    followed.sort_by(|left, right| left.device_id.cmp(&right.device_id));
    assert_eq!(aggregate.snapshot().devices, followed);
}
