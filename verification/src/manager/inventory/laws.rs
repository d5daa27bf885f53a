//! What holds of the inventory over every event.

pub mod records;

use super::{
    all_devices, all_withdrawn, applied, backend_at, backend_at_facts, backend_lost, collected,
    collected_facts, committed, configured, configured_update, connection_advanced, device_at,
    device_at_facts, device_at_index, diff, events_of, put_backend_facts, removals, removals_facts,
    replaced, resolves_to, sorted_backends, sorted_devices, stamped, stamped_facts, updates,
    updates_facts, withdrawn_facts, BackendView, DeviceChangeView, InventoryView, OutcomeView,
};
use crate::manager::InventoryEventView;
use crate::order::{precedes, precedes_irreflexive};
use crate::protocol::{
    backend_devices_view, selection_of, BackendDeviceView, BackendSupervisorEvent,
    DeviceAvailability, DeviceInventorySnapshot, DeviceView,
};
use vstd::prelude::*;

verus! {

/// Events count on from a revision, one by one.
pub open spec fn consecutive(events: Seq<InventoryEventView>, revision: u64) -> bool {
    forall|k: int|
        0 <= k < events.len() ==> (#[trigger] events[k]).revision() == revision + 1 + k
}

/// Each event shows its device as the inventory has it.
pub open spec fn described(
    after: InventoryView,
    backend_id: Seq<char>,
    events: Seq<InventoryEventView>,
) -> bool {
    forall|k: int|
        0 <= k < events.len() ==> match #[trigger] events[k] {
            InventoryEventView::DeviceAdded { inventory_revision, device } => {
                &&& device.backend_id == backend_id
                &&& device.device_revision == inventory_revision
                &&& after.device(backend_id, device.device_id) == Some(device)
            },
            InventoryEventView::DeviceChanged { inventory_revision, device } => {
                &&& device.backend_id == backend_id
                &&& device.device_revision == inventory_revision
                &&& after.device(backend_id, device.device_id) == Some(device)
            },
            InventoryEventView::DeviceRemoved {
                inventory_revision,
                backend_id: source,
                device_id,
            } => {
                &&& source == backend_id
                &&& after.device(backend_id, device_id) is None
            },
        }
}

/// No two events are about one device.
pub open spec fn distinct(events: Seq<InventoryEventView>) -> bool {
    forall|k: int, l: int|
        0 <= k < l < events.len() ==> (#[trigger] events[k]).device_id() != (
        #[trigger] events[l]).device_id()
}

/// An event is about the device.
pub open spec fn touched(events: Seq<InventoryEventView>, device_id: Seq<char>) -> bool {
    exists|k: int| 0 <= k < events.len() && (#[trigger] events[k]).device_id() == device_id
}

/// Devices without an event are as they were.
pub open spec fn others_kept(
    before: InventoryView,
    after: InventoryView,
    backend_id: Seq<char>,
    events: Seq<InventoryEventView>,
) -> bool {
    forall|source: Seq<char>, device_id: Seq<char>|
        source != backend_id || !touched(events, device_id) ==> #[trigger] after.device(
            source,
            device_id,
        ) == before.device(source, device_id)
}

/// What was there before: an addition is of a device that was not there, and a
/// change or removal of one that was.
pub open spec fn motivated(
    before: InventoryView,
    backend_id: Seq<char>,
    events: Seq<InventoryEventView>,
) -> bool {
    forall|k: int|
        0 <= k < events.len() ==> ((#[trigger] events[k]) is DeviceAdded <==> before.device(
            backend_id,
            events[k].device_id(),
        ) is None)
}

/// All of the above.
spec fn lawful(
    before: InventoryView,
    after: InventoryView,
    backend_id: Seq<char>,
    events: Seq<InventoryEventView>,
) -> bool {
    &&& after.revision == before.revision + events.len()
    &&& consecutive(events, before.revision)
    &&& described(after, backend_id, events)
    &&& distinct(events)
    &&& others_kept(before, after, backend_id, events)
    &&& motivated(before, backend_id, events)
}

proof fn removals_complete(old: Seq<DeviceView>, new: Seq<DeviceView>, index: int)
    requires
        0 <= index < old.len(),
        device_at(new, old[index].device_id) is None,
    ensures
        exists|k: int|
            0 <= k < removals(old, new).len() && #[trigger] removals(old, new)[k]
                == DeviceChangeView::Removed(old[index].device_id),
    decreases old.len(),
{
    let earlier = removals(old.drop_last(), new);
    if index < old.len() - 1 {
        assert(old.drop_last()[index] == old[index]);
        removals_complete(old.drop_last(), new, index);
        let k = choose|k: int|
            0 <= k < earlier.len() && #[trigger] earlier[k] == DeviceChangeView::Removed(
                old[index].device_id,
            );
        assert(removals(old, new)[k] == earlier[k]);
    } else {
        assert(removals(old, new)[earlier.len() as int] == DeviceChangeView::Removed(
            old[index].device_id,
        ));
    }
}

spec fn change_id(change: DeviceChangeView) -> Seq<char> {
    match change {
        DeviceChangeView::Added(device) => device.device_id,
        DeviceChangeView::Changed(device) => device.device_id,
        DeviceChangeView::Removed(device_id) => device_id,
    }
}

proof fn removals_ordered(old: Seq<DeviceView>, new: Seq<DeviceView>)
    requires
        sorted_devices(old),
    ensures
        forall|k: int, l: int|
            0 <= k < l < removals(old, new).len() ==> precedes(
                change_id(#[trigger] removals(old, new)[k]),
                change_id(#[trigger] removals(old, new)[l]),
            ),
    decreases old.len(),
{
    if old.len() > 0 {
        let shorter = old.drop_last();
        assert(sorted_devices(shorter)) by {
            assert forall|i: int, j: int| 0 <= i < j < shorter.len() implies precedes(
                (#[trigger] shorter[i]).device_id,
                (#[trigger] shorter[j]).device_id,
            ) by {
                assert(shorter[i] == old[i]);
                assert(shorter[j] == old[j]);
            }
        }
        removals_ordered(shorter, new);
        removals_facts(shorter, new);
        let all = removals(old, new);
        let earlier = removals(shorter, new);
        assert forall|k: int, l: int| 0 <= k < l < all.len() implies precedes(
            change_id(#[trigger] all[k]),
            change_id(#[trigger] all[l]),
        ) by {
            assert(all[k] == earlier[k]);
            if l < earlier.len() {
                assert(all[l] == earlier[l]);
            } else {
                let device_id = earlier[k]->Removed_0;
                let i = choose|i: int|
                    0 <= i < shorter.len() && (#[trigger] shorter[i]).device_id == device_id;
                assert(shorter[i] == old[i]);
                assert(old[old.len() - 1] == old.last());
            }
        }
    }
}

proof fn updates_ordered(old: Seq<DeviceView>, new: Seq<DeviceView>)
    requires
        sorted_devices(new),
    ensures
        forall|k: int, l: int|
            0 <= k < l < updates(old, new).len() ==> precedes(
                change_id(#[trigger] updates(old, new)[k]),
                change_id(#[trigger] updates(old, new)[l]),
            ),
    decreases new.len(),
{
    if new.len() > 0 {
        let shorter = new.drop_last();
        assert(sorted_devices(shorter)) by {
            assert forall|i: int, j: int| 0 <= i < j < shorter.len() implies precedes(
                (#[trigger] shorter[i]).device_id,
                (#[trigger] shorter[j]).device_id,
            ) by {
                assert(shorter[i] == new[i]);
                assert(shorter[j] == new[j]);
            }
        }
        updates_ordered(old, shorter);
        updates_facts(old, shorter);
        let all = updates(old, new);
        let earlier = updates(old, shorter);
        assert forall|k: int, l: int| 0 <= k < l < all.len() implies precedes(
            change_id(#[trigger] all[k]),
            change_id(#[trigger] all[l]),
        ) by {
            assert(all[k] == earlier[k]);
            if l < earlier.len() {
                assert(all[l] == earlier[l]);
            } else {
                let device = match earlier[k] {
                    DeviceChangeView::Added(device) => device,
                    DeviceChangeView::Changed(device) => device,
                    DeviceChangeView::Removed(_) => arbitrary(),
                };
                assert(shorter.contains(device));
                let i = choose|i: int| 0 <= i < shorter.len() && shorter[i] == device;
                assert(shorter[i] == new[i]);
                assert(new[new.len() - 1] == new.last());
            }
        }
    }
}

/// The changes of one list are about different devices.
proof fn changes_distinct(old: Seq<DeviceView>, new: Seq<DeviceView>)
    requires
        sorted_devices(old),
        sorted_devices(new),
    ensures
        forall|k: int, l: int|
            0 <= k < l < diff(old, new).len() ==> change_id(#[trigger] diff(old, new)[k])
                != change_id(#[trigger] diff(old, new)[l]),
{
    let all = diff(old, new);
    let gone = removals(old, new);
    let fresh = updates(old, new);
    removals_ordered(old, new);
    removals_facts(old, new);
    updates_ordered(old, new);
    updates_facts(old, new);
    assert forall|k: int, l: int| 0 <= k < l < all.len() implies change_id(#[trigger] all[k])
        != change_id(#[trigger] all[l]) by {
        precedes_irreflexive(change_id(all[k]));
        if l < gone.len() {
            assert(all[k] == gone[k] && all[l] == gone[l]);
        } else if k >= gone.len() {
            assert(all[k] == fresh[k - gone.len()] && all[l] == fresh[l - gone.len()]);
        } else {
            assert(all[k] == gone[k] && all[l] == fresh[l - gone.len()]);
            device_at_facts(new, change_id(all[k]));
            let device = match all[l] {
                DeviceChangeView::Added(device) => device,
                DeviceChangeView::Changed(device) => device,
                DeviceChangeView::Removed(_) => arbitrary(),
            };
            assert(new.contains(device));
        }
    }
}

/// A commitment is lawful.
proof fn commitment_is_lawful(inventory: InventoryView, backend: BackendView)
    requires
        inventory.wf(),
        sorted_devices(backend.devices),
        forall|i: int|
            0 <= i < backend.devices.len() ==> (#[trigger] backend.devices[i]).backend_id
                == backend.backend_id,
        inventory.revision + diff(
            inventory.devices_of(backend.backend_id),
            backend.devices,
        ).len() <= u64::MAX,
    ensures
        ({
            let changes = diff(inventory.devices_of(backend.backend_id), backend.devices);
            lawful(
                inventory,
                committed(inventory, backend, changes),
                backend.backend_id,
                events_of(backend.backend_id, changes, inventory.revision),
            )
        }),
{
    let id = backend.backend_id;
    let old = inventory.devices_of(id);
    let new = backend.devices;
    let changes = diff(old, new);
    let events = events_of(id, changes, inventory.revision);
    let after = committed(inventory, backend, changes);
    let final_devices = stamped(new, changes, inventory.revision);
    let gone = removals(old, new);
    let fresh = updates(old, new);
    let written = BackendView { devices: final_devices, ..backend };

    backend_at_facts(inventory.backends, id);
    if backend_at(inventory.backends, id) is Some {
        let entry = backend_at(inventory.backends, id)->0;
        let i = choose|i: int|
            0 <= i < inventory.backends.len() && inventory.backends[i] == entry;
        assert(inventory.backends[i].wf(inventory.revision));
    }
    assert(sorted_devices(old));
    put_backend_facts(inventory.backends, written);
    stamped_facts(new, changes, inventory.revision);
    updates_facts(old, new);
    removals_facts(old, new);
    changes_distinct(old, new);
    assert(sorted_devices(final_devices)) by {
        assert forall|i: int, j: int| 0 <= i < j < final_devices.len() implies precedes(
            (#[trigger] final_devices[i]).device_id,
            (#[trigger] final_devices[j]).device_id,
        ) by {
            assert(final_devices[i].device_id == new[i].device_id);
            assert(final_devices[j].device_id == new[j].device_id);
        }
    }
    assert forall|k: int| 0 <= k < events.len() implies (#[trigger] events[k]).device_id()
        == change_id(changes[k]) by {}

    assert forall|k: int| 0 <= k < events.len() implies match #[trigger] events[k] {
        InventoryEventView::DeviceAdded { inventory_revision, device } => {
            &&& device.backend_id == id
            &&& device.device_revision == inventory_revision
            &&& after.device(id, device.device_id) == Some(device)
        },
        InventoryEventView::DeviceChanged { inventory_revision, device } => {
            &&& device.backend_id == id
            &&& device.device_revision == inventory_revision
            &&& after.device(id, device.device_id) == Some(device)
        },
        InventoryEventView::DeviceRemoved {
            inventory_revision,
            backend_id: source,
            device_id,
        } => source == id && after.device(id, device_id) is None,
    } by {
        if k < gone.len() {
            assert(changes[k] == gone[k]);
            let device_id = change_id(changes[k]);
            device_at_facts(new, device_id);
            device_at_facts(final_devices, device_id);
            if device_at(final_devices, device_id) is Some {
                let found = device_at(final_devices, device_id)->0;
                let i = choose|i: int|
                    0 <= i < final_devices.len() && final_devices[i] == found;
                assert(new[i].device_id == device_id);
            }
        } else {
            assert(changes[k] == fresh[k - gone.len()]);
            let device = match changes[k] {
                DeviceChangeView::Added(device) => device,
                DeviceChangeView::Changed(device) => device,
                DeviceChangeView::Removed(_) => arbitrary(),
            };
            assert(new.contains(device));
            let i = choose|i: int| 0 <= i < new.len() && new[i] == device;
            assert(changes[k].stamps(new[i].device_id));
            assert forall|l: int| k < l < changes.len() implies !(
            #[trigger] changes[l]).stamps(new[i].device_id) by {
                assert(change_id(changes[k]) != change_id(changes[l]));
            }
            assert(final_devices[i].device_revision == inventory.revision + 1 + k);
            device_at_index(final_devices, i);
            assert(new[i].backend_id == id);
        }
    }

    assert forall|k: int, l: int| 0 <= k < l < events.len() implies (
    #[trigger] events[k]).device_id() != (#[trigger] events[l]).device_id() by {
        assert(change_id(changes[k]) != change_id(changes[l]));
    }

    assert forall|k: int| 0 <= k < events.len() implies ((#[trigger] events[k]) is DeviceAdded
        <==> inventory.device(id, events[k].device_id()) is None) by {
        if k < gone.len() {
            assert(changes[k] == gone[k]);
            device_at_facts(old, change_id(changes[k]));
        } else {
            assert(changes[k] == fresh[k - gone.len()]);
        }
    }

    assert forall|source: Seq<char>, device_id: Seq<char>|
        source != id || !touched(events, device_id) implies #[trigger] after.device(
        source,
        device_id,
    ) == inventory.device(source, device_id) by {
        if source == id {
            assert forall|k: int| 0 <= k < changes.len() implies change_id(
                #[trigger] changes[k],
            ) != device_id by {
                assert(events[k].device_id() == change_id(changes[k]));
            }
            device_at_facts(old, device_id);
            device_at_facts(new, device_id);
            device_at_facts(final_devices, device_id);
            match device_at(new, device_id) {
                Some(device) => {
                    let i = choose|i: int| 0 <= i < new.len() && new[i] == device;
                    if device_at(old, device_id) != Some(device) {
                        let k = choose|k: int|
                            0 <= k < fresh.len() && (#[trigger] fresh[k]).stamps(
                                new[i].device_id,
                            );
                        assert(changes[gone.len() + k] == fresh[k]);
                        assert(change_id(changes[gone.len() + k]) == device_id);
                        assert(false);
                    }
                    assert forall|k: int| 0 <= k < changes.len() implies !(
                    #[trigger] changes[k]).stamps(new[i].device_id) by {
                        assert(change_id(changes[k]) != device_id);
                    }
                    assert(final_devices[i] == new[i]);
                    device_at_index(final_devices, i);
                },
                None => {
                    if device_at(old, device_id) is Some {
                        let previous = device_at(old, device_id)->0;
                        let i = choose|i: int| 0 <= i < old.len() && old[i] == previous;
                        removals_complete(old, new, i);
                        let k = choose|k: int|
                            0 <= k < gone.len() && #[trigger] gone[k]
                                == DeviceChangeView::Removed(device_id);
                        assert(changes[k] == gone[k]);
                        assert(false);
                    }
                    if device_at(final_devices, device_id) is Some {
                        let found = device_at(final_devices, device_id)->0;
                        let i = choose|i: int|
                            0 <= i < final_devices.len() && final_devices[i] == found;
                        assert(new[i].device_id == device_id);
                    }
                },
            }
        }
    }
}

proof fn loss_is_lawful(inventory: InventoryView, backend_id: Seq<char>)
    requires
        inventory.wf(),
    ensures
        match backend_lost(inventory, backend_id).1 {
            Ok(events) => {
                &&& lawful(inventory, backend_lost(inventory, backend_id).0, backend_id, events)
                &&& sorted_backends(backend_lost(inventory, backend_id).0.backends)
            },
            Err(_) => backend_lost(inventory, backend_id).0 == inventory,
        },
{
    backend_at_facts(inventory.backends, backend_id);
    match backend_at(inventory.backends, backend_id) {
        None => {},
        Some(backend) => {
            let i = choose|i: int|
                0 <= i < inventory.backends.len() && inventory.backends[i] == backend;
            assert(inventory.backends[i].wf(inventory.revision));
            let new = all_withdrawn(backend.devices);
            let changes = diff(backend.devices, new);
            withdrawn_facts(backend.devices);
            if inventory.revision + changes.len() <= u64::MAX {
                let marked = BackendView { devices: new, ..backend };
                commitment_is_lawful(inventory, marked);
                put_backend_facts(
                    inventory.backends,
                    BackendView {
                        devices: stamped(new, changes, inventory.revision),
                        ..marked
                    },
                );
            }
        },
    }
}

proof fn replacement_is_lawful(
    inventory: InventoryView,
    backend_id: Seq<char>,
    connection_generation: u64,
    discovery_generation: u64,
    revision: u64,
    devices: Seq<BackendDeviceView>,
)
    requires
        inventory.wf(),
    ensures
        ({
            let (after, result) = replaced(
                inventory,
                backend_id,
                connection_generation,
                discovery_generation,
                revision,
                devices,
            );
            match result {
                Ok(OutcomeView::Changed(events)) => lawful(inventory, after, backend_id, events),
                _ => after == inventory,
            }
        }),
{
    let old = inventory.devices_of(backend_id);
    collected_facts(devices, backend_id, connection_generation, discovery_generation, old);
    match collected(devices, backend_id, connection_generation, discovery_generation, old) {
        Ok(new) => {
            if inventory.revision + diff(old, new).len() <= u64::MAX {
                commitment_is_lawful(
                    inventory,
                    BackendView {
                        backend_id,
                        connection_generation,
                        discovery_generation: Some(discovery_generation),
                        devices: new,
                    },
                );
            }
        },
        Err(_) => {},
    }
}

proof fn advance_is_lawful(
    inventory: InventoryView,
    backend_id: Seq<char>,
    connection_generation: u64,
)
    requires
        inventory.wf(),
    ensures
        ({
            let (after, result) = connection_advanced(
                inventory,
                backend_id,
                connection_generation,
            );
            match result {
                Ok(OutcomeView::Changed(events)) => lawful(inventory, after, backend_id, events),
                _ => after == inventory,
            }
        }),
{
    loss_is_lawful(inventory, backend_id);
    let (lost, result) = backend_lost(inventory, backend_id);
    if connection_generation > inventory.connection(backend_id) && result is Ok {
        let entry = BackendView {
            backend_id,
            connection_generation,
            discovery_generation: None,
            devices: lost.devices_of(backend_id),
        };
        put_backend_facts(lost.backends, entry);
        let after = connection_advanced(inventory, backend_id, connection_generation).0;
        assert forall|source: Seq<char>, device_id: Seq<char>| #[trigger] after.device(
            source,
            device_id,
        ) == lost.device(source, device_id) by {
            device_at_facts(Seq::empty(), device_id);
        }
        let events = result->Ok_0;
        assert(described(after, backend_id, events)) by {
            assert forall|k: int| 0 <= k < events.len() implies match #[trigger] events[k] {
                InventoryEventView::DeviceAdded { inventory_revision, device } => {
                    &&& device.backend_id == backend_id
                    &&& device.device_revision == inventory_revision
                    &&& after.device(backend_id, device.device_id) == Some(device)
                },
                InventoryEventView::DeviceChanged { inventory_revision, device } => {
                    &&& device.backend_id == backend_id
                    &&& device.device_revision == inventory_revision
                    &&& after.device(backend_id, device.device_id) == Some(device)
                },
                InventoryEventView::DeviceRemoved {
                    inventory_revision,
                    backend_id: source,
                    device_id,
                } => source == backend_id && after.device(backend_id, device_id) is None,
            } by {
                assert(after.device(backend_id, events[k].device_id()) == lost.device(
                    backend_id,
                    events[k].device_id(),
                ));
            }
        }
        assert(others_kept(inventory, after, backend_id, events)) by {
            assert forall|source: Seq<char>, device_id: Seq<char>|
                source != backend_id || !touched(events, device_id) implies #[trigger] after.device(
                source,
                device_id,
            ) == inventory.device(source, device_id) by {
                assert(lost.device(source, device_id) == inventory.device(source, device_id));
            }
        }
    }
}

proof fn event_is_lawful(
    inventory: InventoryView,
    backend_id: Seq<char>,
    event: BackendSupervisorEvent,
)
    requires
        inventory.wf(),
    ensures
        ({
            let (after, result) = applied(inventory, backend_id, event);
            match result {
                Ok(OutcomeView::Changed(events)) => lawful(inventory, after, backend_id, events),
                _ => after == inventory,
            }
        }),
{
    match event {
        BackendSupervisorEvent::Connecting { connection_generation } => {
            advance_is_lawful(inventory, backend_id, connection_generation);
        },
        BackendSupervisorEvent::ConnectionFailed { connection_generation } => {
            advance_is_lawful(inventory, backend_id, connection_generation);
        },
        BackendSupervisorEvent::Connected { connection_generation, inventory: snapshot } => {
            snapshot_is_lawful(inventory, backend_id, connection_generation, snapshot);
        },
        BackendSupervisorEvent::InventoryChanged {
            connection_generation,
            inventory: snapshot,
        } => {
            snapshot_is_lawful(inventory, backend_id, connection_generation, snapshot);
        },
        BackendSupervisorEvent::InventoryResynchronized {
            connection_generation,
            inventory: snapshot,
        } => {
            snapshot_is_lawful(inventory, backend_id, connection_generation, snapshot);
        },
        BackendSupervisorEvent::Disconnected {
            connection_generation,
            reason,
            unavailable_inventory,
        } => {
            snapshot_is_lawful(
                inventory,
                backend_id,
                connection_generation,
                unavailable_inventory,
            );
        },
        BackendSupervisorEvent::Stopped { .. } => {
            loss_is_lawful(inventory, backend_id);
        },
        BackendSupervisorEvent::ReconnectScheduled => {},
        BackendSupervisorEvent::ReconnectExhausted => {},
    }
}

proof fn snapshot_is_lawful(
    inventory: InventoryView,
    backend_id: Seq<char>,
    connection_generation: u64,
    snapshot: DeviceInventorySnapshot,
)
    requires
        inventory.wf(),
    ensures
        ({
            let (after, result) = super::snapshot_replaced(
                inventory,
                backend_id,
                connection_generation,
                snapshot,
            );
            match result {
                Ok(OutcomeView::Changed(events)) => lawful(inventory, after, backend_id, events),
                _ => after == inventory,
            }
        }),
{
    replacement_is_lawful(
        inventory,
        backend_id,
        connection_generation,
        snapshot.discovery_generation,
        snapshot.revision,
        backend_devices_view(snapshot.devices@),
    );
}

/// An event that is refused or ignored leaves the inventory as it was.
pub proof fn refused_events_change_nothing(
    inventory: InventoryView,
    backend_id: Seq<char>,
    event: BackendSupervisorEvent,
)
    requires
        inventory.wf(),
    ensures
        !(applied(inventory, backend_id, event).1 matches Ok(OutcomeView::Changed(_)))
            ==> applied(inventory, backend_id, event).0 == inventory,
{
    event_is_lawful(inventory, backend_id, event);
}

/// Published events carry consecutive revisions, and the inventory ends at the
/// last of them.
pub proof fn revisions_are_consecutive(
    inventory: InventoryView,
    backend_id: Seq<char>,
    event: BackendSupervisorEvent,
)
    requires
        inventory.wf(),
    ensures
        ({
            let (after, result) = applied(inventory, backend_id, event);
            result matches Ok(OutcomeView::Changed(events)) ==> {
                &&& after.revision == inventory.revision + events.len()
                &&& consecutive(events, inventory.revision)
            }
        }),
{
    event_is_lawful(inventory, backend_id, event);
}

/// Published events say what the inventory then holds: an added or changed
/// device is there as announced, under the revision that announced it, and a
/// removed device is gone. An addition is of a device that was not there
/// before. No device is announced twice.
pub proof fn events_describe_the_inventory(
    inventory: InventoryView,
    backend_id: Seq<char>,
    event: BackendSupervisorEvent,
)
    requires
        inventory.wf(),
    ensures
        ({
            let (after, result) = applied(inventory, backend_id, event);
            result matches Ok(OutcomeView::Changed(events)) ==> {
                &&& described(after, backend_id, events)
                &&& motivated(inventory, backend_id, events)
                &&& distinct(events)
            }
        }),
{
    event_is_lawful(inventory, backend_id, event);
}

/// A device without an event keeps its exact record, its revision too.
pub proof fn unannounced_devices_are_untouched(
    inventory: InventoryView,
    backend_id: Seq<char>,
    event: BackendSupervisorEvent,
)
    requires
        inventory.wf(),
    ensures
        ({
            let (after, result) = applied(inventory, backend_id, event);
            result matches Ok(OutcomeView::Changed(events)) ==> others_kept(
                inventory,
                after,
                backend_id,
                events,
            )
        }),
{
    event_is_lawful(inventory, backend_id, event);
}

/// A device of a well-formed inventory has the IDs it is found under and a
/// revision that has been published.
pub proof fn found_devices_are_published(
    inventory: InventoryView,
    backend_id: Seq<char>,
    device_id: Seq<char>,
)
    requires
        inventory.wf(),
    ensures
        inventory.device(backend_id, device_id) matches Some(device) ==> {
            &&& device.backend_id == backend_id
            &&& device.device_id == device_id
            &&& 0 < device.device_revision <= inventory.revision
        },
{
    backend_at_facts(inventory.backends, backend_id);
    match backend_at(inventory.backends, backend_id) {
        Some(backend) => {
            let i = choose|i: int|
                0 <= i < inventory.backends.len() && inventory.backends[i] == backend;
            assert(inventory.backends[i].wf(inventory.revision));
            device_at_facts(backend.devices, device_id);
            match device_at(backend.devices, device_id) {
                Some(device) => {
                    let j = choose|j: int|
                        0 <= j < backend.devices.len() && backend.devices[j] == device;
                    assert(backend.devices[j].backend_id == backend.backend_id);
                },
                None => {},
            }
        },
        None => {},
    }
}

/// An available device is resolved by the selection taken from its record.
pub proof fn current_selections_resolve(
    inventory: InventoryView,
    backend_id: Seq<char>,
    device_id: Seq<char>,
)
    requires
        inventory.wf(),
    ensures
        inventory.device(backend_id, device_id) matches Some(device) ==> (
        device.availability == DeviceAvailability::Available ==> resolves_to(
            inventory,
            selection_of(device),
            device,
        )),
{
    found_devices_are_published(inventory, backend_id, device_id);
}

/// Once a device has been announced as changed or removed, the selection taken
/// from its earlier record resolves to nothing.
pub proof fn announced_changes_invalidate_selections(
    inventory: InventoryView,
    backend_id: Seq<char>,
    event: BackendSupervisorEvent,
    earlier: DeviceView,
)
    requires
        inventory.wf(),
        inventory.device(backend_id, earlier.device_id) == Some(earlier),
    ensures
        ({
            let (after, result) = applied(inventory, backend_id, event);
            result matches Ok(OutcomeView::Changed(events)) ==> (touched(
                events,
                earlier.device_id,
            ) ==> forall|device: DeviceView| !resolves_to(after, selection_of(earlier), device))
        }),
{
    event_is_lawful(inventory, backend_id, event);
    found_devices_are_published(inventory, backend_id, earlier.device_id);
    let (after, result) = applied(inventory, backend_id, event);
    match result {
        Ok(OutcomeView::Changed(events)) => {
            if touched(events, earlier.device_id) {
                let k = choose|k: int|
                    0 <= k < events.len() && (#[trigger] events[k]).device_id()
                        == earlier.device_id;
                assert(events[k].revision() == inventory.revision + 1 + k);
            }
        },
        _ => {},
    }
}

/// A configured display that follows the published events holds what the
/// inventory would tell it. After a removal the two agree in all but the
/// revision, which an event gives as its own.
pub proof fn following_events_agrees_with_the_inventory(
    inventory: InventoryView,
    backend_id: Seq<char>,
    event: BackendSupervisorEvent,
    current: DeviceView,
)
    requires
        inventory.wf(),
        inventory.device(backend_id, current.device_id) == Some(current),
    ensures
        ({
            let (after, result) = applied(inventory, backend_id, event);
            result matches Ok(OutcomeView::Changed(events)) ==> {
                &&& !touched(events, current.device_id) ==> configured(after, current) == current
                &&& forall|k: int|
                    0 <= k < events.len() && (#[trigger] events[k]).device_id()
                        == current.device_id ==> configured_update(current, events[k]) == Some(
                        if events[k] is DeviceRemoved {
                            DeviceView {
                                device_revision: events[k].revision(),
                                ..configured(after, current)
                            }
                        } else {
                            configured(after, current)
                        },
                    )
            }
        }),
{
    event_is_lawful(inventory, backend_id, event);
    found_devices_are_published(inventory, backend_id, current.device_id);
    let (after, result) = applied(inventory, backend_id, event);
    match result {
        Ok(OutcomeView::Changed(events)) => {
            assert forall|k: int|
                0 <= k < events.len() && (#[trigger] events[k]).device_id()
                    == current.device_id implies configured_update(current, events[k]) == Some(
                if events[k] is DeviceRemoved {
                    DeviceView {
                        device_revision: events[k].revision(),
                        ..configured(after, current)
                    }
                } else {
                    configured(after, current)
                },
            ) by {
                assert(events[k].revision() == inventory.revision + 1 + k);
            }
        },
        _ => {},
    }
}

/// Listed devices come in the order of backend IDs and, within a backend, of
/// device IDs; so none is listed twice.
pub proof fn listed_devices_are_ordered(inventory: InventoryView)
    requires
        inventory.wf(),
    ensures
        forall|i: int, j: int|
            0 <= i < j < all_devices(inventory.backends).len() ==> {
                let left = #[trigger] all_devices(inventory.backends)[i];
                let right = #[trigger] all_devices(inventory.backends)[j];
                precedes(left.backend_id, right.backend_id) || (left.backend_id
                    == right.backend_id && precedes(left.device_id, right.device_id))
            },
{
    assert(inventory.backends.take(inventory.backends.len() as int) =~= inventory.backends);
    listing_ordered(inventory, inventory.backends.len() as int);
}

proof fn listing_ordered(inventory: InventoryView, length: int)
    requires
        inventory.wf(),
        0 <= length <= inventory.backends.len(),
    ensures
        ({
            let listed = all_devices(inventory.backends.take(length));
            &&& forall|i: int, j: int|
                0 <= i < j < listed.len() ==> {
                    let left = #[trigger] listed[i];
                    let right = #[trigger] listed[j];
                    precedes(left.backend_id, right.backend_id) || (left.backend_id
                        == right.backend_id && precedes(left.device_id, right.device_id))
                }
            &&& forall|i: int|
                0 <= i < listed.len() ==> exists|b: int|
                    0 <= b < length && (#[trigger] inventory.backends[b]).backend_id == (
                    #[trigger] listed[i]).backend_id
        }),
    decreases length,
{
    if length > 0 {
        let upto = inventory.backends.take(length);
        let last = inventory.backends[length - 1];
        assert(upto.drop_last() =~= inventory.backends.take(length - 1));
        assert(upto.last() == last);
        assert(last.wf(inventory.revision));
        listing_ordered(inventory, length - 1);
        let earlier = all_devices(upto.drop_last());
        let listed = all_devices(upto);
        assert forall|i: int, j: int| 0 <= i < j < listed.len() implies {
            let left = #[trigger] listed[i];
            let right = #[trigger] listed[j];
            precedes(left.backend_id, right.backend_id) || (left.backend_id == right.backend_id
                && precedes(left.device_id, right.device_id))
        } by {
            if j < earlier.len() {
                assert(listed[i] == earlier[i] && listed[j] == earlier[j]);
            } else if i >= earlier.len() {
                assert(listed[i] == last.devices[i - earlier.len()]);
                assert(listed[j] == last.devices[j - earlier.len()]);
            } else {
                assert(listed[i] == earlier[i]);
                assert(listed[j] == last.devices[j - earlier.len()]);
                let b = choose|b: int|
                    0 <= b < length - 1 && (#[trigger] inventory.backends[b]).backend_id
                        == earlier[i].backend_id;
                assert(precedes(
                    inventory.backends[b].backend_id,
                    inventory.backends[length - 1].backend_id,
                ));
            }
        }
        assert forall|i: int| 0 <= i < listed.len() implies exists|b: int|
            0 <= b < length && (#[trigger] inventory.backends[b]).backend_id == (
            #[trigger] listed[i]).backend_id by {
            if i < earlier.len() {
                assert(listed[i] == earlier[i]);
                let b = choose|b: int|
                    0 <= b < length - 1 && (#[trigger] inventory.backends[b]).backend_id
                        == earlier[i].backend_id;
                assert(inventory.backends[b].backend_id == listed[i].backend_id);
            } else {
                assert(listed[i] == last.devices[i - earlier.len()]);
                assert(inventory.backends[length - 1].backend_id == listed[i].backend_id);
            }
        }
    }
}

} // verus!
