//! What the inventory holds after every event, record by record.

use crate::manager::inventory::laws::{
    event_is_lawful, found_devices_are_published, loss_is_lawful, touched,
};
use crate::manager::inventory::{
    all_devices, all_withdrawn, applied, backend_at, backend_at_facts, backend_at_index,
    backend_lost, collected, collected_facts, configured, configured_update, device_at,
    device_at_facts, device_at_index, device_count_is_length, diff, insert_device,
    insert_device_facts, published, put_backend_facts, removals, removals_facts, resolves_to,
    snapshot_replaced, sorted_devices, stamped, stamped_facts, updates, updates_facts, withdrawn,
    withdrawn_facts, AggregateErrorView, BackendView, DeviceChangeView, InventoryView, OutcomeView,
};
use crate::manager::InventoryEventView;
use crate::order::precedes;
use crate::protocol::{
    backend_devices_view, metadata_view, BackendDevice, BackendDeviceView, BackendSupervisorEvent,
    DeviceAvailability, DeviceInventorySnapshot, DeviceView, SelectionView,
};
use crate::text::{debug_form, decimal};
use vstd::prelude::*;

verus! {

/// The list of devices that an event reports, with its connection, if it does.
pub open spec fn reported_list(event: BackendSupervisorEvent) -> Option<
    (u64, DeviceInventorySnapshot),
> {
    match event {
        BackendSupervisorEvent::Connected { connection_generation, inventory } => Some(
            (connection_generation, inventory),
        ),
        BackendSupervisorEvent::InventoryChanged { connection_generation, inventory } => Some(
            (connection_generation, inventory),
        ),
        BackendSupervisorEvent::InventoryResynchronized {
            connection_generation,
            inventory,
        } => Some((connection_generation, inventory)),
        BackendSupervisorEvent::Disconnected {
            connection_generation,
            unavailable_inventory,
            ..
        } => Some((connection_generation, unavailable_inventory)),
        _ => None,
    }
}

/// The record says of a device what its backend reported: who it is, how it is
/// called, whether it can be reached, and everything that was learned of it.
pub open spec fn shows(record: DeviceView, reported: BackendDevice) -> bool {
    &&& record.backend_id == reported.backend_id@
    &&& record.device_id == reported.device_id@
    &&& record.display_name == reported.display_name@
    &&& record.availability == reported.availability
    &&& record.metadata.len() == reported.metadata@.len()
    &&& forall|k: int|
        0 <= k < reported.metadata@.len() ==> #[trigger] record.metadata[k] == (
            reported.metadata@[k].key@,
            reported.metadata@[k].value@,
        )
}

/// Two records say the same of a device, whenever they did.
pub open spec fn same_contents(left: DeviceView, right: DeviceView) -> bool {
    &&& left.backend_id == right.backend_id
    &&& left.device_id == right.device_id
    &&& left.display_name == right.display_name
    &&& left.availability == right.availability
    &&& left.connection_generation == right.connection_generation
    &&& left.discovery_generation == right.discovery_generation
    &&& left.metadata == right.metadata
}

spec fn shows_view(
    record: DeviceView,
    reported: BackendDeviceView,
    connection_generation: u64,
    discovery_generation: u64,
) -> bool {
    &&& record.backend_id == reported.backend_id
    &&& record.device_id == reported.device_id
    &&& record.display_name == reported.display_name
    &&& record.availability == reported.availability
    &&& record.metadata == reported.metadata
    &&& record.connection_generation == connection_generation
    &&& record.discovery_generation == discovery_generation
}

spec fn shown_in(
    records: Seq<DeviceView>,
    reported: BackendDeviceView,
    connection_generation: u64,
    discovery_generation: u64,
) -> bool {
    exists|j: int|
        0 <= j < records.len() && shows_view(
            #[trigger] records[j],
            reported,
            connection_generation,
            discovery_generation,
        )
}

spec fn listed_in(
    devices: Seq<BackendDeviceView>,
    record: DeviceView,
    connection_generation: u64,
    discovery_generation: u64,
) -> bool {
    exists|i: int|
        0 <= i < devices.len() && shows_view(
            record,
            #[trigger] devices[i],
            connection_generation,
            discovery_generation,
        )
}

/// The record is the one from before, or says something else.
spec fn kept_or_new(old: Seq<DeviceView>, record: DeviceView) -> bool {
    match device_at(old, record.device_id) {
        Some(previous) => record == previous || !same_contents(record, previous),
        None => true,
    }
}

/// Every device is sound, belongs to the backend, and is listed once.
pub open spec fn well_listed(devices: Seq<BackendDeviceView>, backend_id: Seq<char>) -> bool {
    &&& forall|i: int|
        0 <= i < devices.len() ==> (#[trigger] devices[i]).defect is None && devices[i].backend_id
            == backend_id
    &&& forall|i: int, k: int|
        0 <= i < k < devices.len() ==> (#[trigger] devices[i]).device_id != (
        #[trigger] devices[k]).device_id
}

proof fn published_records_show_the_device(
    device: BackendDeviceView,
    connection_generation: u64,
    discovery_generation: u64,
    old: Seq<DeviceView>,
)
    ensures
        ({
            let record = published(
                device,
                connection_generation,
                discovery_generation,
                device_at(old, device.device_id),
            );
            &&& shows_view(record, device, connection_generation, discovery_generation)
            &&& kept_or_new(old, record)
        }),
{
}

#[verifier::rlimit(40)]
proof fn collected_records_show_the_list(
    devices: Seq<BackendDeviceView>,
    backend_id: Seq<char>,
    connection_generation: u64,
    discovery_generation: u64,
    old: Seq<DeviceView>,
)
    requires
        collected(devices, backend_id, connection_generation, discovery_generation, old) is Ok,
    ensures
        ({
            let new = collected(
                devices,
                backend_id,
                connection_generation,
                discovery_generation,
                old,
            )->Ok_0;
            &&& forall|i: int|
                0 <= i < devices.len() ==> shown_in(
                    new,
                    #[trigger] devices[i],
                    connection_generation,
                    discovery_generation,
                )
            &&& forall|j: int|
                0 <= j < new.len() ==> listed_in(
                    devices,
                    #[trigger] new[j],
                    connection_generation,
                    discovery_generation,
                ) && kept_or_new(old, new[j])
        }),
    decreases devices.len(),
{
    if devices.len() > 0 {
        let shorter = devices.drop_last();
        let last = devices.last();
        let n = devices.len() - 1;
        collected_records_show_the_list(
            shorter,
            backend_id,
            connection_generation,
            discovery_generation,
            old,
        );
        collected_facts(shorter, backend_id, connection_generation, discovery_generation, old);
        let earlier = collected(
            shorter,
            backend_id,
            connection_generation,
            discovery_generation,
            old,
        )->Ok_0;
        let record = published(
            last,
            connection_generation,
            discovery_generation,
            device_at(old, last.device_id),
        );
        published_records_show_the_device(last, connection_generation, discovery_generation, old);
        let all = insert_device(earlier, record);
        insert_device_facts(earlier, record);
        assert(devices[n] == last);
        assert forall|i: int| 0 <= i < devices.len() implies shown_in(
            all,
            #[trigger] devices[i],
            connection_generation,
            discovery_generation,
        ) by {
            let shown = if i < n {
                assert(shorter[i] == devices[i]);
                assert(shown_in(earlier, shorter[i], connection_generation, discovery_generation));
                let k = choose|k: int|
                    0 <= k < earlier.len() && shows_view(
                        #[trigger] earlier[k],
                        shorter[i],
                        connection_generation,
                        discovery_generation,
                    );
                assert(earlier.contains(earlier[k]));
                earlier[k]
            } else {
                record
            };
            assert(all.contains(shown));
            let j = choose|j: int| 0 <= j < all.len() && all[j] == shown;
            assert(shows_view(all[j], devices[i], connection_generation, discovery_generation));
        }
        assert forall|j: int| 0 <= j < all.len() implies listed_in(
            devices,
            #[trigger] all[j],
            connection_generation,
            discovery_generation,
        ) && kept_or_new(old, all[j]) by {
            assert(all.contains(all[j]));
            if all[j] == record {
                assert(shows_view(all[j], devices[n], connection_generation, discovery_generation));
            } else {
                let k = choose|k: int| 0 <= k < earlier.len() && earlier[k] == all[j];
                assert(listed_in(shorter, earlier[k], connection_generation, discovery_generation));
                let i = choose|i: int|
                    0 <= i < shorter.len() && shows_view(
                        earlier[k],
                        #[trigger] shorter[i],
                        connection_generation,
                        discovery_generation,
                    );
                assert(devices[i] == shorter[i]);
                assert(shows_view(all[j], devices[i], connection_generation, discovery_generation));
            }
        }
    }
}

#[verifier::rlimit(40)]
proof fn good_lists_are_collected(
    devices: Seq<BackendDeviceView>,
    backend_id: Seq<char>,
    connection_generation: u64,
    discovery_generation: u64,
    old: Seq<DeviceView>,
)
    ensures
        collected(devices, backend_id, connection_generation, discovery_generation, old) is Ok
            <==> well_listed(devices, backend_id),
    decreases devices.len(),
{
    if devices.len() > 0 {
        let shorter = devices.drop_last();
        let last = devices.last();
        let n = devices.len() - 1;
        good_lists_are_collected(
            shorter,
            backend_id,
            connection_generation,
            discovery_generation,
            old,
        );
        assert(devices[n] == last);
        assert forall|i: int| 0 <= i < n implies #[trigger] devices[i] == shorter[i] by {}
        if well_listed(devices, backend_id) {
            assert(well_listed(shorter, backend_id)) by {
                assert forall|i: int| 0 <= i < shorter.len() implies (
                #[trigger] shorter[i]).defect is None && shorter[i].backend_id == backend_id by {
                    assert(devices[i] == shorter[i]);
                }
                assert forall|i: int, k: int| 0 <= i < k < shorter.len() implies (
                #[trigger] shorter[i]).device_id != (#[trigger] shorter[k]).device_id by {
                    assert(devices[i] == shorter[i] && devices[k] == shorter[k]);
                }
            }
        }
        if collected(shorter, backend_id, connection_generation, discovery_generation, old) is Ok {
            let earlier = collected(
                shorter,
                backend_id,
                connection_generation,
                discovery_generation,
                old,
            )->Ok_0;
            collected_records_show_the_list(
                shorter,
                backend_id,
                connection_generation,
                discovery_generation,
                old,
            );
            device_at_facts(earlier, last.device_id);
            if device_at(earlier, last.device_id) is Some {
                let found = device_at(earlier, last.device_id)->0;
                let j = choose|j: int| 0 <= j < earlier.len() && earlier[j] == found;
                assert(listed_in(shorter, earlier[j], connection_generation, discovery_generation));
                let i = choose|i: int|
                    0 <= i < shorter.len() && shows_view(
                        earlier[j],
                        #[trigger] shorter[i],
                        connection_generation,
                        discovery_generation,
                    );
                assert(devices[i].device_id == devices[n].device_id);
            } else {
                assert forall|i: int| 0 <= i < n implies (#[trigger] devices[i]).device_id
                    != last.device_id by {
                    assert(devices[i] == shorter[i]);
                    assert(shown_in(
                        earlier,
                        shorter[i],
                        connection_generation,
                        discovery_generation,
                    ));
                    let j = choose|j: int|
                        0 <= j < earlier.len() && shows_view(
                            #[trigger] earlier[j],
                            shorter[i],
                            connection_generation,
                            discovery_generation,
                        );
                    assert(earlier[j].device_id != last.device_id);
                }
                if last.defect is None && last.backend_id == backend_id {
                    assert(well_listed(devices, backend_id)) by {
                        assert forall|i: int| 0 <= i < devices.len() implies (
                        #[trigger] devices[i]).defect is None && devices[i].backend_id
                            == backend_id by {
                            if i < n {
                                assert(shorter[i].defect is None);
                            }
                        }
                        assert forall|i: int, k: int| 0 <= i < k < devices.len() implies (
                        #[trigger] devices[i]).device_id != (#[trigger] devices[k]).device_id by {
                            if k < n {
                                assert(shorter[i].device_id != shorter[k].device_id);
                            }
                        }
                    }
                }
            }
        }
    }
}

/// The records of a backend whose list was accepted, as they are committed.
spec fn committed_records(
    inventory: InventoryView,
    backend_id: Seq<char>,
    connection_generation: u64,
    snapshot: DeviceInventorySnapshot,
) -> Seq<DeviceView> {
    let old = inventory.devices_of(backend_id);
    let new = collected(
        backend_devices_view(snapshot.devices@),
        backend_id,
        connection_generation,
        snapshot.discovery_generation,
        old,
    )->Ok_0;
    stamped(new, diff(old, new), inventory.revision)
}

proof fn unchanged_records_keep_their_stamp(
    old: Seq<DeviceView>,
    new: Seq<DeviceView>,
    revision: u64,
    j: int,
)
    requires
        sorted_devices(new),
        0 <= j < new.len(),
        device_at(old, new[j].device_id) == Some(new[j]),
        revision + diff(old, new).len() <= u64::MAX,
    ensures
        stamped(new, diff(old, new), revision)[j] == new[j],
{
    let changes = diff(old, new);
    let gone = removals(old, new);
    let fresh = updates(old, new);
    updates_facts(old, new);
    removals_facts(old, new);
    stamped_facts(new, changes, revision);
    assert forall|k: int| 0 <= k < changes.len() implies !(#[trigger] changes[k]).stamps(
        new[j].device_id,
    ) by {
        if k < gone.len() {
            assert(changes[k] == gone[k]);
        } else {
            assert(changes[k] == fresh[k - gone.len()]);
            if changes[k].stamps(new[j].device_id) {
                let device = match changes[k] {
                    DeviceChangeView::Added(device) => device,
                    DeviceChangeView::Changed(device) => device,
                    DeviceChangeView::Removed(_) => arbitrary(),
                };
                assert(new.contains(device));
                let l = choose|l: int| 0 <= l < new.len() && new[l] == device;
                device_at_index(new, l);
                device_at_index(new, j);
            }
        }
    }
}

/// The committed records show the list, and are those that are found.
#[verifier::rlimit(40)]
proof fn committed_records_show_the_list(
    inventory: InventoryView,
    backend_id: Seq<char>,
    connection_generation: u64,
    snapshot: DeviceInventorySnapshot,
)
    requires
        inventory.wf(),
        snapshot_replaced(inventory, backend_id, connection_generation, snapshot).1
            matches Ok(OutcomeView::Changed(_)),
    ensures
        ({
            let records = committed_records(
                inventory,
                backend_id,
                connection_generation,
                snapshot,
            );
            let after = snapshot_replaced(
                inventory,
                backend_id,
                connection_generation,
                snapshot,
            ).0;
            let devices = backend_devices_view(snapshot.devices@);
            let old = inventory.devices_of(backend_id);
            let generation = snapshot.discovery_generation;
            &&& sorted_devices(records)
            &&& backend_at(after.backends, backend_id) matches Some(entry) && entry.devices
                == records && entry.connection_generation == connection_generation
            &&& forall|i: int|
                0 <= i < devices.len() ==> shown_in(
                    records,
                    #[trigger] devices[i],
                    connection_generation,
                    generation,
                )
            &&& forall|j: int|
                0 <= j < records.len() ==> listed_in(
                    devices,
                    #[trigger] records[j],
                    connection_generation,
                    generation,
                ) && kept_or_new(old, records[j])
        }),
{
    let devices = backend_devices_view(snapshot.devices@);
    let old = inventory.devices_of(backend_id);
    let generation = snapshot.discovery_generation;
    collected_facts(devices, backend_id, connection_generation, generation, old);
    collected_records_show_the_list(devices, backend_id, connection_generation, generation, old);
    let new = collected(devices, backend_id, connection_generation, generation, old)->Ok_0;
    let changes = diff(old, new);
    let records = stamped(new, changes, inventory.revision);
    stamped_facts(new, changes, inventory.revision);
    put_backend_facts(
        inventory.backends,
        BackendView {
            backend_id,
            connection_generation,
            discovery_generation: Some(generation),
            devices: records,
        },
    );
    assert forall|i: int, j: int| 0 <= i < j < records.len() implies precedes(
        (#[trigger] records[i]).device_id,
        (#[trigger] records[j]).device_id,
    ) by {
        assert(records[i].device_id == new[i].device_id);
        assert(records[j].device_id == new[j].device_id);
    }
    assert forall|i: int| 0 <= i < devices.len() implies shown_in(
        records,
        #[trigger] devices[i],
        connection_generation,
        generation,
    ) by {
        assert(shown_in(new, devices[i], connection_generation, generation));
        let j = choose|j: int|
            0 <= j < new.len() && shows_view(
                #[trigger] new[j],
                devices[i],
                connection_generation,
                generation,
            );
        assert(records[j] == DeviceView { device_revision: records[j].device_revision, ..new[j] });
        assert(shows_view(records[j], devices[i], connection_generation, generation));
    }
    assert forall|j: int| 0 <= j < records.len() implies listed_in(
        devices,
        #[trigger] records[j],
        connection_generation,
        generation,
    ) && kept_or_new(old, records[j]) by {
        assert(records[j] == DeviceView { device_revision: records[j].device_revision, ..new[j] });
        assert(listed_in(devices, new[j], connection_generation, generation));
        let i = choose|i: int|
            0 <= i < devices.len() && shows_view(
                new[j],
                #[trigger] devices[i],
                connection_generation,
                generation,
            );
        assert(shows_view(records[j], devices[i], connection_generation, generation));
        if device_at(old, new[j].device_id) == Some(new[j]) {
            unchanged_records_keep_their_stamp(old, new, inventory.revision, j);
        }
    }
}

/// What the inventory holds of a backend whose list was accepted.
#[verifier::rlimit(40)]
proof fn replaced_backends_hold_the_list(
    inventory: InventoryView,
    backend_id: Seq<char>,
    connection_generation: u64,
    snapshot: DeviceInventorySnapshot,
)
    requires
        inventory.wf(),
        snapshot_replaced(inventory, backend_id, connection_generation, snapshot).1
            matches Ok(OutcomeView::Changed(_)),
    ensures
        ({
            let after = snapshot_replaced(
                inventory,
                backend_id,
                connection_generation,
                snapshot,
            ).0;
            &&& after.connection(backend_id) == connection_generation
            &&& forall|i: int|
                0 <= i < snapshot.devices@.len() ==> {
                    let reported = #[trigger] snapshot.devices@[i];
                    let found = after.device(backend_id, reported.device_id@);
                    &&& found is Some
                    &&& shows(found->0, reported)
                    &&& found->0.connection_generation == connection_generation
                    &&& found->0.discovery_generation == snapshot.discovery_generation
                }
            &&& forall|device_id: Seq<char>| #[trigger]
                after.device(backend_id, device_id) is Some ==> exists|i: int|
                    0 <= i < snapshot.devices@.len() && (
                    #[trigger] snapshot.devices@[i]).device_id@ == device_id
            &&& forall|device_id: Seq<char>|
                match (inventory.device(backend_id, device_id), #[trigger] after.device(
                    backend_id,
                    device_id,
                )) {
                    (Some(previous), Some(current)) => current == previous || !same_contents(
                        current,
                        previous,
                    ),
                    _ => true,
                }
        }),
{
    let devices = backend_devices_view(snapshot.devices@);
    let old = inventory.devices_of(backend_id);
    let generation = snapshot.discovery_generation;
    let records = committed_records(inventory, backend_id, connection_generation, snapshot);
    committed_records_show_the_list(inventory, backend_id, connection_generation, snapshot);
    let after = snapshot_replaced(inventory, backend_id, connection_generation, snapshot).0;
    assert forall|i: int| 0 <= i < snapshot.devices@.len() implies {
        let reported = #[trigger] snapshot.devices@[i];
        let found = after.device(backend_id, reported.device_id@);
        &&& found is Some
        &&& shows(found->0, reported)
        &&& found->0.connection_generation == connection_generation
        &&& found->0.discovery_generation == snapshot.discovery_generation
    } by {
        let reported = snapshot.devices@[i];
        assert(devices[i] == reported@);
        assert(shown_in(records, devices[i], connection_generation, generation));
        let j = choose|j: int|
            0 <= j < records.len() && shows_view(
                #[trigger] records[j],
                devices[i],
                connection_generation,
                generation,
            );
        device_at_index(records, j);
        assert(after.device(backend_id, reported.device_id@) == Some(records[j]));
        assert(records[j].metadata == metadata_view(reported.metadata@));
    }
    assert forall|device_id: Seq<char>| #[trigger]
        after.device(backend_id, device_id) is Some implies exists|i: int|
        0 <= i < snapshot.devices@.len() && (#[trigger] snapshot.devices@[i]).device_id@
            == device_id by {
        device_at_facts(records, device_id);
        let record = device_at(records, device_id)->0;
        let j = choose|j: int| 0 <= j < records.len() && records[j] == record;
        assert(listed_in(devices, records[j], connection_generation, generation));
        let i = choose|i: int|
            0 <= i < devices.len() && shows_view(
                records[j],
                #[trigger] devices[i],
                connection_generation,
                generation,
            );
        assert(devices[i] == snapshot.devices@[i]@);
        assert(snapshot.devices@[i].device_id@ == device_id);
    }
    assert forall|device_id: Seq<char>|
        match (inventory.device(backend_id, device_id), #[trigger] after.device(
            backend_id,
            device_id,
        )) {
            (Some(previous), Some(current)) => current == previous || !same_contents(
                current,
                previous,
            ),
            _ => true,
        } by {
        device_at_facts(records, device_id);
        if inventory.device(backend_id, device_id) is Some && after.device(
            backend_id,
            device_id,
        ) is Some {
            let record = device_at(records, device_id)->0;
            let j = choose|j: int| 0 <= j < records.len() && records[j] == record;
            assert(kept_or_new(old, records[j]));
        }
    }
}

/// After a list of devices was accepted, the inventory holds of that backend exactly
/// the devices of the list: each with the name, the availability and everything else
/// that was reported, under the generations of the report, and none besides.
pub proof fn accepted_lists_are_held(
    inventory: InventoryView,
    backend_id: Seq<char>,
    event: BackendSupervisorEvent,
)
    requires
        inventory.wf(),
        reported_list(event) is Some,
        applied(inventory, backend_id, event).1 matches Ok(OutcomeView::Changed(_)),
    ensures
        ({
            let after = applied(inventory, backend_id, event).0;
            let (connection_generation, list) = reported_list(event)->0;
            &&& after.connection(backend_id) == connection_generation
            &&& forall|i: int|
                0 <= i < list.devices@.len() ==> {
                    let reported = #[trigger] list.devices@[i];
                    let found = after.device(backend_id, reported.device_id@);
                    &&& found is Some
                    &&& shows(found->0, reported)
                    &&& found->0.connection_generation == connection_generation
                    &&& found->0.discovery_generation == list.discovery_generation
                }
            &&& forall|device_id: Seq<char>| #[trigger]
                after.device(backend_id, device_id) is Some ==> exists|i: int|
                    0 <= i < list.devices@.len() && (#[trigger] list.devices@[i]).device_id@
                        == device_id
        }),
{
    let (connection_generation, list) = reported_list(event)->0;
    replaced_backends_hold_the_list(inventory, backend_id, connection_generation, list);
}

/// A device of a reported list is announced exactly if what the inventory says of it
/// is new: it was not there, it is no longer, or something of it other than its
/// revision has changed.
pub proof fn reports_announce_what_is_new(
    inventory: InventoryView,
    backend_id: Seq<char>,
    event: BackendSupervisorEvent,
    device_id: Seq<char>,
)
    requires
        inventory.wf(),
        reported_list(event) is Some,
        applied(inventory, backend_id, event).1 matches Ok(OutcomeView::Changed(_)),
    ensures
        ({
            let (after, result) = applied(inventory, backend_id, event);
            let events = result->Ok_0->Changed_0;
            touched(events, device_id) <==> match (
                inventory.device(backend_id, device_id),
                after.device(backend_id, device_id),
            ) {
                (None, None) => false,
                (Some(previous), Some(current)) => !same_contents(previous, current),
                _ => true,
            }
        }),
{
    let (connection_generation, list) = reported_list(event)->0;
    event_is_lawful(inventory, backend_id, event);
    replaced_backends_hold_the_list(inventory, backend_id, connection_generation, list);
    found_devices_are_published(inventory, backend_id, device_id);
    let (after, result) = applied(inventory, backend_id, event);
    let events = result->Ok_0->Changed_0;
    if touched(events, device_id) {
        let k = choose|k: int|
            0 <= k < events.len() && (#[trigger] events[k]).device_id() == device_id;
        assert(events[k].revision() == inventory.revision + 1 + k);
    } else {
        assert(after.device(backend_id, device_id) == inventory.device(backend_id, device_id));
    }
}

/// The list can be taken in: its connection is one that the backend may report for,
/// its numbers are there, nothing is wrong with any device, each belongs to the
/// backend and is listed once, and all devices together are at most 256.
pub open spec fn sound_list(
    inventory: InventoryView,
    backend_id: Seq<char>,
    event: BackendSupervisorEvent,
) -> bool {
    let (connection_generation, list) = reported_list(event)->0;
    &&& if event is Connected {
        connection_generation >= inventory.connection(backend_id)
    } else {
        connection_generation == inventory.connection(backend_id)
    }
    &&& connection_generation > 0 && list.discovery_generation > 0 && list.revision > 0
    &&& forall|i: int|
        0 <= i < list.devices@.len() ==> (#[trigger] list.devices@[i]).defect is None
            && list.devices@[i].backend_id@ == backend_id
    &&& forall|i: int, k: int|
        0 <= i < k < list.devices@.len() ==> (#[trigger] list.devices@[i]).device_id@ != (
        #[trigger] list.devices@[k]).device_id@
    &&& all_devices(inventory.backends).len() - inventory.devices_of(backend_id).len()
        + list.devices@.len() <= 256
}

/// A list is accepted only if it is sound; and a sound one is accepted, as long as
/// revisions are left for it.
pub proof fn sound_lists_are_accepted(
    inventory: InventoryView,
    backend_id: Seq<char>,
    event: BackendSupervisorEvent,
)
    requires
        inventory.wf(),
        reported_list(event) is Some,
    ensures
        ({
            let result = applied(inventory, backend_id, event).1;
            let (_, list) = reported_list(event)->0;
            &&& result matches Ok(OutcomeView::Changed(_)) ==> sound_list(
                inventory,
                backend_id,
                event,
            )
            &&& sound_list(inventory, backend_id, event) && inventory.revision
                + inventory.devices_of(backend_id).len() + list.devices@.len() <= u64::MAX
                ==> result matches Ok(OutcomeView::Changed(_))
        }),
{
    let (connection_generation, list) = reported_list(event)->0;
    let devices = backend_devices_view(list.devices@);
    let old = inventory.devices_of(backend_id);
    let generation = list.discovery_generation;
    device_count_is_length(inventory.backends);
    collected_facts(devices, backend_id, connection_generation, generation, old);
    good_lists_are_collected(devices, backend_id, connection_generation, generation, old);
    assert forall|i: int| 0 <= i < devices.len() implies #[trigger] devices[i]
        == list.devices@[i]@ by {}
    if well_listed(devices, backend_id) {
        let new = collected(devices, backend_id, connection_generation, generation, old)->Ok_0;
        updates_facts(old, new);
        removals_facts(old, new);
        assert forall|i: int| 0 <= i < list.devices@.len() implies (
        #[trigger] list.devices@[i]).defect is None && list.devices@[i].backend_id@
            == backend_id by {
            assert(devices[i].defect is None && devices[i].backend_id == backend_id);
        }
        assert forall|i: int, k: int| 0 <= i < k < list.devices@.len() implies (
        #[trigger] list.devices@[i]).device_id@ != (#[trigger] list.devices@[k]).device_id@ by {
            assert(devices[i].device_id != devices[k].device_id);
        }
    }
    if sound_list(inventory, backend_id, event) {
        assert forall|i: int| 0 <= i < devices.len() implies (#[trigger] devices[i]).defect is None
            && devices[i].backend_id == backend_id by {
            assert(list.devices@[i].defect is None);
        }
        assert forall|i: int, k: int| 0 <= i < k < devices.len() implies (
        #[trigger] devices[i]).device_id != (#[trigger] devices[k]).device_id by {
            assert(list.devices@[i].device_id@ != list.devices@[k].device_id@);
        }
    }
}

/// What was reported for a connection that is no longer the newest is ignored.
pub proof fn reports_of_old_connections_are_ignored(
    inventory: InventoryView,
    backend_id: Seq<char>,
    event: BackendSupervisorEvent,
)
    ensures
        ({
            let (after, result) = applied(inventory, backend_id, event);
            let current = inventory.connection(backend_id);
            let ignored = after == inventory && result == Ok::<OutcomeView, AggregateErrorView>(
                OutcomeView::IgnoredStale,
            );
            match event {
                BackendSupervisorEvent::Connecting {
                    connection_generation,
                } => connection_generation <= current <==> ignored,
                BackendSupervisorEvent::ConnectionFailed {
                    connection_generation,
                } => connection_generation <= current <==> ignored,
                BackendSupervisorEvent::Stopped { last_connection_generation } => (
                last_connection_generation is Some && last_connection_generation->0 < current)
                    <==> ignored,
                BackendSupervisorEvent::ReconnectScheduled => after == inventory && !ignored,
                BackendSupervisorEvent::ReconnectExhausted => after == inventory && !ignored,
                _ => {
                    let (connection_generation, _) = reported_list(event)->0;
                    connection_generation < current <==> ignored
                },
            }
        }),
{
}

/// Losing a backend makes every device of it unavailable, and changes nothing else of
/// it: no device goes, none comes, and one that could not be reached before is as it
/// was, its revision too.
pub proof fn lost_backends_cannot_be_reached(
    inventory: InventoryView,
    backend_id: Seq<char>,
    device_id: Seq<char>,
)
    requires
        inventory.wf(),
        backend_lost(inventory, backend_id).1 is Ok,
    ensures
        ({
            let (after, result) = backend_lost(inventory, backend_id);
            let events = result->Ok_0;
            &&& after.connection(backend_id) == inventory.connection(backend_id)
            &&& match inventory.device(backend_id, device_id) {
                None => after.device(backend_id, device_id) is None && !touched(
                    events,
                    device_id,
                ),
                Some(previous) => {
                    &&& after.device(backend_id, device_id) is Some
                    &&& ({
                        let current = after.device(backend_id, device_id)->0;
                        &&& current.availability == DeviceAvailability::Unavailable
                        &&& current.backend_id == previous.backend_id
                        &&& current.device_id == previous.device_id
                        &&& current.display_name == previous.display_name
                        &&& current.metadata == previous.metadata
                        &&& current.connection_generation == previous.connection_generation
                        &&& current.discovery_generation == previous.discovery_generation
                        &&& previous.availability == DeviceAvailability::Unavailable <==> current
                            == previous
                        &&& previous.availability == DeviceAvailability::Unavailable <==> !touched(
                            events,
                            device_id,
                        )
                    })
                },
            }
        }),
{
    loss_is_lawful(inventory, backend_id);
    found_devices_are_published(inventory, backend_id, device_id);
    backend_at_facts(inventory.backends, backend_id);
    let (after, result) = backend_lost(inventory, backend_id);
    let events = result->Ok_0;
    match backend_at(inventory.backends, backend_id) {
        None => {
            device_at_facts(Seq::empty(), device_id);
        },
        Some(backend) => {
            let b = choose|b: int|
                0 <= b < inventory.backends.len() && inventory.backends[b] == backend;
            assert(inventory.backends[b].wf(inventory.revision));
            let new = all_withdrawn(backend.devices);
            let changes = diff(backend.devices, new);
            withdrawn_facts(backend.devices);
            stamped_facts(new, changes, inventory.revision);
            updates_facts(backend.devices, new);
            removals_facts(backend.devices, new);
            let final_devices = stamped(new, changes, inventory.revision);
            put_backend_facts(
                inventory.backends,
                BackendView { devices: final_devices, ..backend },
            );
            device_at_facts(backend.devices, device_id);
            device_at_facts(final_devices, device_id);
            assert(sorted_devices(final_devices)) by {
                assert forall|i: int, j: int| 0 <= i < j < final_devices.len() implies precedes(
                    (#[trigger] final_devices[i]).device_id,
                    (#[trigger] final_devices[j]).device_id,
                ) by {
                    assert(final_devices[i].device_id == new[i].device_id);
                    assert(final_devices[j].device_id == new[j].device_id);
                }
            }
            match device_at(backend.devices, device_id) {
                None => {
                    if device_at(final_devices, device_id) is Some {
                        let found = device_at(final_devices, device_id)->0;
                        let j = choose|j: int|
                            0 <= j < final_devices.len() && final_devices[j] == found;
                        assert(new[j].device_id == device_id);
                        assert(backend.devices[j].device_id == device_id);
                    }
                    if touched(events, device_id) {
                        let k = choose|k: int|
                            0 <= k < events.len() && (#[trigger] events[k]).device_id()
                                == device_id;
                        assert(events[k] is DeviceAdded <==> inventory.device(
                            backend_id,
                            device_id,
                        ) is None);
                    }
                },
                Some(previous) => {
                    let i = choose|i: int|
                        0 <= i < backend.devices.len() && backend.devices[i] == previous;
                    assert(new[i] == withdrawn(previous));
                    let record = final_devices[i];
                    assert(record == DeviceView {
                        device_revision: record.device_revision,
                        ..new[i]
                    });
                    device_at_index(final_devices, i);
                    assert(after.device(backend_id, device_id) == Some(record));
                    if touched(events, device_id) {
                        let k = choose|k: int|
                            0 <= k < events.len() && (#[trigger] events[k]).device_id()
                                == device_id;
                        assert(events[k].revision() == inventory.revision + 1 + k);
                        assert(record.device_revision > inventory.revision);
                        if previous.availability == DeviceAvailability::Unavailable {
                            device_at_index(backend.devices, i);
                            unchanged_records_keep_their_stamp(
                                backend.devices,
                                new,
                                inventory.revision,
                                i,
                            );
                            assert(final_devices[i] == new[i]);
                        }
                    } else {
                        assert(after.device(backend_id, device_id) == inventory.device(
                            backend_id,
                            device_id,
                        ));
                    }
                },
            }
        },
    }
}

/// A newer connection attempt makes the devices of the backend unavailable, as its
/// loss does, and is the one that reports are then taken for.
pub proof fn new_attempts_give_up_the_old_connection(
    inventory: InventoryView,
    backend_id: Seq<char>,
    event: BackendSupervisorEvent,
    device_id: Seq<char>,
)
    requires
        inventory.wf(),
        event is Connecting || event is ConnectionFailed,
        applied(inventory, backend_id, event).1 matches Ok(OutcomeView::Changed(_)),
    ensures
        ({
            let after = applied(inventory, backend_id, event).0;
            let generation = match event {
                BackendSupervisorEvent::Connecting { connection_generation } =>
                    connection_generation,
                BackendSupervisorEvent::ConnectionFailed { connection_generation } =>
                    connection_generation,
                _ => 0,
            };
            &&& generation > inventory.connection(backend_id)
            &&& after.connection(backend_id) == generation
            &&& after.device(backend_id, device_id) == backend_lost(
                inventory,
                backend_id,
            ).0.device(backend_id, device_id)
            &&& after.device(backend_id, device_id) matches Some(device) ==> device.availability
                == DeviceAvailability::Unavailable
        }),
{
    loss_is_lawful(inventory, backend_id);
    lost_backends_cannot_be_reached(inventory, backend_id, device_id);
    let lost = backend_lost(inventory, backend_id).0;
    let generation = match event {
        BackendSupervisorEvent::Connecting { connection_generation } => connection_generation,
        BackendSupervisorEvent::ConnectionFailed { connection_generation } => connection_generation,
        _ => 0,
    };
    put_backend_facts(
        lost.backends,
        BackendView {
            backend_id,
            connection_generation: generation,
            discovery_generation: None,
            devices: lost.devices_of(backend_id),
        },
    );
    device_at_facts(Seq::empty(), device_id);
}

/// A backend that has stopped for good is lost.
pub proof fn stopped_backends_are_lost(
    inventory: InventoryView,
    backend_id: Seq<char>,
    last_connection_generation: Option<u64>,
)
    requires
        last_connection_generation is None || last_connection_generation->0
            >= inventory.connection(backend_id),
    ensures
        ({
            let (after, result) = applied(
                inventory,
                backend_id,
                BackendSupervisorEvent::Stopped { last_connection_generation },
            );
            let (lost, told) = backend_lost(inventory, backend_id);
            &&& after == lost
            &&& result is Ok <==> told is Ok
            &&& told is Ok ==> result == Ok::<OutcomeView, AggregateErrorView>(
                OutcomeView::Changed(told->Ok_0),
            )
        }),
{
}

/// No event of one backend touches another: neither its devices nor the connection
/// that it may report for.
pub proof fn backends_do_not_touch_each_other(
    inventory: InventoryView,
    backend_id: Seq<char>,
    event: BackendSupervisorEvent,
    other: Seq<char>,
    device_id: Seq<char>,
)
    requires
        inventory.wf(),
        other != backend_id,
    ensures
        applied(inventory, backend_id, event).0.device(other, device_id) == inventory.device(
            other,
            device_id,
        ),
        applied(inventory, backend_id, event).0.connection(other) == inventory.connection(other),
{
    event_is_lawful(inventory, backend_id, event);
    loss_is_lawful(inventory, backend_id);
    let after = applied(inventory, backend_id, event).0;
    let old = inventory.devices_of(backend_id);
    let lost = backend_lost(inventory, backend_id).0;
    if let Some(backend) = backend_at(inventory.backends, backend_id) {
        let new = all_withdrawn(backend.devices);
        put_backend_facts(
            inventory.backends,
            BackendView {
                devices: stamped(new, diff(backend.devices, new), inventory.revision),
                ..backend
            },
        );
        backend_at_facts(inventory.backends, backend_id);
    }
    match event {
        BackendSupervisorEvent::Connecting { connection_generation } => {
            put_backend_facts(
                lost.backends,
                BackendView {
                    backend_id,
                    connection_generation,
                    discovery_generation: None,
                    devices: lost.devices_of(backend_id),
                },
            );
        },
        BackendSupervisorEvent::ConnectionFailed { connection_generation } => {
            put_backend_facts(
                lost.backends,
                BackendView {
                    backend_id,
                    connection_generation,
                    discovery_generation: None,
                    devices: lost.devices_of(backend_id),
                },
            );
        },
        _ => {
            if let Some((connection_generation, list)) = reported_list(event) {
                let devices = backend_devices_view(list.devices@);
                if let Ok(new) = collected(
                    devices,
                    backend_id,
                    connection_generation,
                    list.discovery_generation,
                    old,
                ) {
                    put_backend_facts(
                        inventory.backends,
                        BackendView {
                            backend_id,
                            connection_generation,
                            discovery_generation: Some(list.discovery_generation),
                            devices: stamped(new, diff(old, new), inventory.revision),
                        },
                    );
                }
            }
        },
    }
}

/// The listing holds a record exactly if that is what is found under its IDs.
pub proof fn listings_hold_what_is_found(inventory: InventoryView, record: DeviceView)
    requires
        inventory.wf(),
    ensures
        all_devices(inventory.backends).contains(record) <==> inventory.device(
            record.backend_id,
            record.device_id,
        ) == Some(record),
{
    let all = inventory.backends;
    assert(all.take(all.len() as int) =~= all);
    if all_devices(all).contains(record) {
        listed_in_some_backend(all, record);
        let b = choose|b: int| 0 <= b < all.len() && (#[trigger] all[b]).devices.contains(record);
        assert(all[b].wf(inventory.revision));
        let i = choose|i: int| 0 <= i < all[b].devices.len() && all[b].devices[i] == record;
        assert(all[b].devices[i].backend_id == all[b].backend_id);
        backend_at_index(all, b);
        device_at_index(all[b].devices, i);
    }
    if inventory.device(record.backend_id, record.device_id) == Some(record) {
        backend_at_facts(all, record.backend_id);
        let backend = backend_at(all, record.backend_id)->0;
        device_at_facts(backend.devices, record.device_id);
        let b = choose|b: int| 0 <= b < all.len() && all[b] == backend;
        listed_from_its_backend(all, b, record);
    }
}

proof fn listed_in_some_backend(backends: Seq<BackendView>, record: DeviceView)
    requires
        all_devices(backends).contains(record),
    ensures
        exists|b: int|
            0 <= b < backends.len() && (#[trigger] backends[b]).devices.contains(record),
    decreases backends.len(),
{
    if backends.len() > 0 {
        let shorter = backends.drop_last();
        let earlier = all_devices(shorter);
        let i = choose|i: int|
            0 <= i < all_devices(backends).len() && all_devices(backends)[i] == record;
        if i < earlier.len() {
            assert(earlier[i] == record);
            listed_in_some_backend(shorter, record);
            let b = choose|b: int|
                0 <= b < shorter.len() && (#[trigger] shorter[b]).devices.contains(record);
            assert(backends[b].devices.contains(record));
        } else {
            assert(backends.last().devices[i - earlier.len()] == record);
            assert(backends[backends.len() - 1].devices.contains(record));
        }
    }
}

proof fn listed_from_its_backend(backends: Seq<BackendView>, b: int, record: DeviceView)
    requires
        0 <= b < backends.len(),
        backends[b].devices.contains(record),
    ensures
        all_devices(backends).contains(record),
    decreases backends.len(),
{
    let shorter = backends.drop_last();
    let earlier = all_devices(shorter);
    let all = all_devices(backends);
    if b < shorter.len() {
        assert(shorter[b] == backends[b]);
        listed_from_its_backend(shorter, b, record);
        let i = choose|i: int| 0 <= i < earlier.len() && earlier[i] == record;
        assert(all[i] == record);
    } else {
        let last = backends.last().devices;
        let i = choose|i: int| 0 <= i < last.len() && last[i] == record;
        assert(all[earlier.len() + i] == record);
    }
}

/// A selection finds a device only by all that it names, and only while the device
/// can be used.
pub proof fn selections_name_one_record(
    inventory: InventoryView,
    selection: SelectionView,
    device: DeviceView,
)
    requires
        inventory.wf(),
    ensures
        resolves_to(inventory, selection, device) <==> {
            &&& inventory.device(selection.backend_id, selection.device_id) == Some(device)
            &&& selection.connection_generation == device.connection_generation
            &&& selection.discovery_generation == device.discovery_generation
            &&& selection.device_revision == device.device_revision
            &&& selection.defect is None
            &&& device.availability == DeviceAvailability::Available
        },
{
    found_devices_are_published(inventory, selection.backend_id, selection.device_id);
}

/// A configured display has its device as the inventory has it. One that the
/// inventory does not know keeps its name and what was learned of it, cannot be
/// reached, and does not go back in its revision.
pub proof fn configured_displays_keep_their_device(
    inventory: InventoryView,
    previous: DeviceView,
)
    ensures
        ({
            let current = configured(inventory, previous);
            match inventory.device(previous.backend_id, previous.device_id) {
                Some(found) => current == found,
                None => {
                    &&& current.availability == DeviceAvailability::Unavailable
                    &&& current.backend_id == previous.backend_id
                    &&& current.device_id == previous.device_id
                    &&& current.display_name == previous.display_name
                    &&& current.metadata == previous.metadata
                    &&& current.connection_generation == previous.connection_generation
                    &&& current.discovery_generation == previous.discovery_generation
                    &&& current.device_revision >= previous.device_revision
                    &&& current.device_revision >= inventory.revision
                    &&& current.device_revision == previous.device_revision
                        || current.device_revision == inventory.revision
                },
            }
        }),
{
}

/// A display follows an event exactly if the event is about its device.
pub proof fn displays_follow_their_own_device(current: DeviceView, event: InventoryEventView)
    ensures
        match event {
            InventoryEventView::DeviceAdded { device, .. } => configured_update(current, event)
                == (if device.backend_id == current.backend_id && device.device_id
                == current.device_id {
                Some(device)
            } else {
                None
            }),
            InventoryEventView::DeviceChanged { device, .. } => configured_update(current, event)
                == (if device.backend_id == current.backend_id && device.device_id
                == current.device_id {
                Some(device)
            } else {
                None
            }),
            InventoryEventView::DeviceRemoved { inventory_revision, backend_id, device_id } => {
                let update = configured_update(current, event);
                &&& update is Some <==> backend_id == current.backend_id && device_id
                    == current.device_id
                &&& update matches Some(device) ==> {
                    &&& device.availability == DeviceAvailability::Unavailable
                    &&& device.device_revision == inventory_revision
                    &&& device.display_name == current.display_name
                    &&& device.metadata == current.metadata
                    &&& device.device_id == current.device_id
                    &&& device.backend_id == current.backend_id
                }
            },
        },
{
}

/// The first device of a list that something is wrong with, and what: a defect of its own, the
/// name of another backend, or the name of a device that was listed before.
pub open spec fn first_fault(
    devices: Seq<BackendDeviceView>,
    backend_id: Seq<char>,
    i: int,
    error: AggregateErrorView,
) -> bool {
    &&& 0 <= i < devices.len()
    &&& well_listed(devices.take(i), backend_id)
    &&& match error {
        AggregateErrorView::InvalidDevice(text) => devices[i].defect == Some(text),
        AggregateErrorView::WrongBackendId { expected, actual } => {
            &&& devices[i].defect is None
            &&& expected == backend_id
            &&& actual == devices[i].backend_id
            &&& actual != backend_id
        },
        AggregateErrorView::DuplicateDevice { backend_id: named, device_id } => {
            &&& devices[i].defect is None
            &&& devices[i].backend_id == backend_id
            &&& named == backend_id
            &&& device_id == devices[i].device_id
            &&& exists|k: int| 0 <= k < i && (#[trigger] devices[k]).device_id == device_id
        },
        _ => false,
    }
}

#[verifier::rlimit(40)]
proof fn bad_lists_fail_at_their_first_fault(
    devices: Seq<BackendDeviceView>,
    backend_id: Seq<char>,
    connection_generation: u64,
    discovery_generation: u64,
    old: Seq<DeviceView>,
)
    requires
        collected(devices, backend_id, connection_generation, discovery_generation, old) is Err,
    ensures
        exists|i: int| #[trigger]
            first_fault(
                devices,
                backend_id,
                i,
                collected(
                    devices,
                    backend_id,
                    connection_generation,
                    discovery_generation,
                    old,
                )->Err_0,
            ),
    decreases devices.len(),
{
    let shorter = devices.drop_last();
    let last = devices.last();
    let n = devices.len() - 1;
    let error = collected(
        devices,
        backend_id,
        connection_generation,
        discovery_generation,
        old,
    )->Err_0;
    assert(devices[n] == last);
    assert(devices.take(n) =~= shorter);
    if collected(shorter, backend_id, connection_generation, discovery_generation, old) is Err {
        bad_lists_fail_at_their_first_fault(
            shorter,
            backend_id,
            connection_generation,
            discovery_generation,
            old,
        );
        let i = choose|i: int| #[trigger] first_fault(shorter, backend_id, i, error);
        assert(shorter.take(i) =~= devices.take(i));
        assert(shorter[i] == devices[i]);
        if error is DuplicateDevice {
            let k = choose|k: int|
                0 <= k < i && (#[trigger] shorter[k]).device_id == error->DuplicateDevice_device_id;
            assert(devices[k] == shorter[k]);
        }
        assert(first_fault(devices, backend_id, i, error));
    } else {
        good_lists_are_collected(
            shorter,
            backend_id,
            connection_generation,
            discovery_generation,
            old,
        );
        if error is DuplicateDevice {
            let earlier = collected(
                shorter,
                backend_id,
                connection_generation,
                discovery_generation,
                old,
            )->Ok_0;
            collected_records_show_the_list(
                shorter,
                backend_id,
                connection_generation,
                discovery_generation,
                old,
            );
            device_at_facts(earlier, last.device_id);
            let found = device_at(earlier, last.device_id)->0;
            let j = choose|j: int| 0 <= j < earlier.len() && earlier[j] == found;
            assert(listed_in(shorter, earlier[j], connection_generation, discovery_generation));
            let k = choose|k: int|
                0 <= k < shorter.len() && shows_view(
                    earlier[j],
                    #[trigger] shorter[k],
                    connection_generation,
                    discovery_generation,
                );
            assert(devices[k].device_id == last.device_id);
        }
        assert(first_fault(devices, backend_id, n, error));
    }
}

/// A list that is refused says what is wrong with it: a connection that the backend has not got,
/// a number that is zero, the first device that is not sound, too many devices, or that no
/// revision is left.
pub proof fn refused_lists_say_what_is_wrong(
    inventory: InventoryView,
    backend_id: Seq<char>,
    event: BackendSupervisorEvent,
)
    requires
        reported_list(event) is Some,
        applied(inventory, backend_id, event).1 is Err,
    ensures
        ({
            let (connection_generation, list) = reported_list(event)->0;
            let error = applied(inventory, backend_id, event).1->Err_0;
            let current = inventory.connection(backend_id);
            let unexpected = !(event is Connected) && connection_generation > current;
            let zero = connection_generation == 0 || list.discovery_generation == 0
                || list.revision == 0;
            &&& error is UnexpectedConnectionGeneration <==> unexpected
            &&& unexpected ==> error == (AggregateErrorView::UnexpectedConnectionGeneration {
                backend_id,
                expected: current,
                actual: connection_generation,
            })
            &&& error is ZeroGeneration <==> !unexpected && zero
            &&& error is InvalidDevice || error is WrongBackendId || error is DuplicateDevice
                ==> exists|i: int| #[trigger]
                first_fault(backend_devices_view(list.devices@), backend_id, i, error)
            &&& error matches AggregateErrorView::TooManyDevices(count) ==> count > 256 && count
                == all_devices(inventory.backends).len() - inventory.devices_of(backend_id).len()
                + list.devices@.len()
        }),
{
    let (connection_generation, list) = reported_list(event)->0;
    let devices = backend_devices_view(list.devices@);
    let old = inventory.devices_of(backend_id);
    let generation = list.discovery_generation;
    device_count_is_length(inventory.backends);
    if collected(devices, backend_id, connection_generation, generation, old) is Err {
        bad_lists_fail_at_their_first_fault(
            devices,
            backend_id,
            connection_generation,
            generation,
            old,
        );
    } else {
        collected_facts(devices, backend_id, connection_generation, generation, old);
    }
}

/// The text of an error names what was found and what was expected: the backend and the device,
/// the two backends, the two connections, or how many devices there are.
pub proof fn error_texts_name_what_was_found(error: AggregateErrorView)
    ensures
        error matches AggregateErrorView::InvalidDevice(why) ==> error.text().skip(
            error.text().len() - why.len(),
        ) == why,
        error matches AggregateErrorView::WrongBackendId { expected, actual } ==> error.text()
            .subrange(18, 18 + debug_form(actual).len() as int) == debug_form(actual)
            && error.text().skip(error.text().len() - debug_form(expected).len()) == debug_form(
            expected,
        ),
        error matches AggregateErrorView::DuplicateDevice { backend_id, device_id }
            ==> error.text().subrange(17, 17 + debug_form(backend_id).len() as int) == debug_form(
            backend_id,
        ) && error.text().skip(error.text().len() - debug_form(device_id).len()) == debug_form(
            device_id,
        ),
        error matches AggregateErrorView::UnexpectedConnectionGeneration {
            backend_id,
            expected,
            actual,
        } ==> error.text().subrange(8, 8 + debug_form(backend_id).len() as int) == debug_form(
            backend_id,
        ) && error.text().skip(error.text().len() - decimal(expected as nat).len()) == decimal(
            expected as nat,
        ),
        error matches AggregateErrorView::TooManyDevices(count) ==> error.text().subrange(
            19,
            19 + decimal(count as nat).len() as int,
        ) == decimal(count as nat),
{
    reveal_strlit("device backend ID ");
    reveal_strlit("duplicate device ");
    reveal_strlit("backend ");
    reveal_strlit("aggregate contains ");
    let text = error.text();
    match error {
        AggregateErrorView::InvalidDevice(why) => {
            assert(text.skip(text.len() - why.len()) =~= why);
        },
        AggregateErrorView::WrongBackendId { expected, actual } => {
            let first = debug_form(actual);
            let last = debug_form(expected);
            assert(text.subrange(18, 18 + first.len() as int) =~= first);
            assert(text.skip(text.len() - last.len()) =~= last);
        },
        AggregateErrorView::DuplicateDevice { backend_id, device_id } => {
            let first = debug_form(backend_id);
            let last = debug_form(device_id);
            assert(text.subrange(17, 17 + first.len() as int) =~= first);
            assert(text.skip(text.len() - last.len()) =~= last);
        },
        AggregateErrorView::UnexpectedConnectionGeneration { backend_id, expected, actual } => {
            let first = debug_form(backend_id);
            let last = decimal(expected as nat);
            assert(text.subrange(8, 8 + first.len() as int) =~= first);
            assert(text.skip(text.len() - last.len()) =~= last);
        },
        AggregateErrorView::TooManyDevices(count) => {
            let number = decimal(count as nat);
            assert(text.subrange(19, 19 + number.len() as int) =~= number);
        },
        _ => {},
    }
}

} // verus!
