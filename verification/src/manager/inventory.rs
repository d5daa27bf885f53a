//! Aggregate backend inventory and public revision ordering.

pub mod laws;

use crate::manager::{events_view, InventoryEvent, InventoryEventView, ResolveDeviceError};
use crate::order::{
    compare, precedes, precedes_irreflexive, precedes_total, precedes_transitive, same_text, Place,
};
use crate::protocol::{
    backend_devices_view, clone_metadata, devices_view, same_metadata, selection_of, BackendDevice,
    BackendDeviceView, BackendSupervisorEvent, DeviceAvailability, DeviceInfo,
    DeviceInventorySnapshot, DeviceSelection, DeviceSnapshot, DeviceView, SelectionView,
    MAX_PUBLIC_DEVICES,
};
use crate::text::{concat, debug_form, decimal, push_decimal, quoted};
use vstd::prelude::*;

verus! {

/// The records of one backend.
#[derive(Debug)]
struct BackendInventory {
    backend_id: String,
    connection_generation: u64,
    discovery_generation: Option<u64>,
    devices: Vec<DeviceInfo>,
}

/// Every device of every backend, under one public revision.
///
/// Backends are kept in the order of their IDs, and the devices of a backend in
/// the order of theirs; no ID occurs twice.
#[derive(Debug)]
pub struct AggregateInventory {
    inventory_revision: u64,
    backends: Vec<BackendInventory>,
}

/// The contents of one backend's records.
#[verifier::ext_equal]
pub struct BackendView {
    pub backend_id: Seq<char>,
    pub connection_generation: u64,
    pub discovery_generation: Option<u64>,
    pub devices: Seq<DeviceView>,
}

/// The contents of an [`AggregateInventory`].
#[verifier::ext_equal]
pub struct InventoryView {
    pub revision: u64,
    pub backends: Seq<BackendView>,
}

/// What a supervisor event did to the inventory.
#[derive(Debug, PartialEq, Eq)]
pub enum ApplySupervisorOutcome {
    Changed(Vec<InventoryEvent>),
    IgnoredStale,
}

/// The contents of an [`ApplySupervisorOutcome`].
pub enum OutcomeView {
    Changed(Seq<InventoryEventView>),
    IgnoredStale,
}

/// Why a supervisor event was rejected.
#[derive(Debug, PartialEq, Eq)]
#[allow(inconsistent_fields)]
pub enum AggregateError {
    ZeroGeneration,
    InvalidDevice(String),
    WrongBackendId { expected: String, actual: String },
    DuplicateDevice { backend_id: String, device_id: String },
    TooManyDevices(usize),
    RevisionExhausted,
    UnexpectedConnectionGeneration { backend_id: String, expected: u64, actual: u64 },
}

/// The contents of an [`AggregateError`].
#[allow(inconsistent_fields)]
pub enum AggregateErrorView {
    ZeroGeneration,
    InvalidDevice(Seq<char>),
    WrongBackendId { expected: Seq<char>, actual: Seq<char> },
    DuplicateDevice { backend_id: Seq<char>, device_id: Seq<char> },
    TooManyDevices(int),
    RevisionExhausted,
    UnexpectedConnectionGeneration { backend_id: Seq<char>, expected: u64, actual: u64 },
}

impl View for BackendInventory {
    type V = BackendView;

    closed spec fn view(&self) -> BackendView {
        BackendView {
            backend_id: self.backend_id@,
            connection_generation: self.connection_generation,
            discovery_generation: self.discovery_generation,
            devices: devices_view(self.devices@),
        }
    }
}

spec fn backends_view(backends: Seq<BackendInventory>) -> Seq<BackendView> {
    backends.map_values(|backend: BackendInventory| backend@)
}

impl View for AggregateInventory {
    type V = InventoryView;

    closed spec fn view(&self) -> InventoryView {
        InventoryView {
            revision: self.inventory_revision,
            backends: backends_view(self.backends@),
        }
    }
}

impl View for ApplySupervisorOutcome {
    type V = OutcomeView;

    open spec fn view(&self) -> OutcomeView {
        match *self {
            ApplySupervisorOutcome::Changed(events) => OutcomeView::Changed(events_view(events@)),
            ApplySupervisorOutcome::IgnoredStale => OutcomeView::IgnoredStale,
        }
    }
}

impl View for AggregateError {
    type V = AggregateErrorView;

    open spec fn view(&self) -> AggregateErrorView {
        match *self {
            AggregateError::ZeroGeneration => AggregateErrorView::ZeroGeneration,
            AggregateError::InvalidDevice(text) => AggregateErrorView::InvalidDevice(text@),
            AggregateError::WrongBackendId {
                expected,
                actual,
            } => AggregateErrorView::WrongBackendId { expected: expected@, actual: actual@ },
            AggregateError::DuplicateDevice {
                backend_id,
                device_id,
            } => AggregateErrorView::DuplicateDevice {
                backend_id: backend_id@,
                device_id: device_id@,
            },
            AggregateError::TooManyDevices(count) => AggregateErrorView::TooManyDevices(
                count as int,
            ),
            AggregateError::RevisionExhausted => AggregateErrorView::RevisionExhausted,
            AggregateError::UnexpectedConnectionGeneration {
                backend_id,
                expected,
                actual,
            } => AggregateErrorView::UnexpectedConnectionGeneration {
                backend_id: backend_id@,
                expected,
                actual,
            },
        }
    }
}

impl AggregateErrorView {
    /// The error as one line.
    pub open spec fn text(self) -> Seq<char> {
        match self {
            AggregateErrorView::ZeroGeneration =>
                "device inventory generation/revision must be nonzero"@,
            AggregateErrorView::InvalidDevice(error) => "invalid device: "@ + error,
            AggregateErrorView::WrongBackendId { expected, actual } => "device backend ID "@
                + debug_form(actual) + " does not match source "@ + debug_form(expected),
            AggregateErrorView::DuplicateDevice { backend_id, device_id } => "duplicate device "@
                + debug_form(backend_id) + "/"@ + debug_form(device_id),
            AggregateErrorView::TooManyDevices(count) => "aggregate contains "@ + decimal(
                count as nat,
            ) + " devices; limit is "@ + decimal(MAX_PUBLIC_DEVICES as nat),
            AggregateErrorView::RevisionExhausted => "public inventory revision is exhausted"@,
            AggregateErrorView::UnexpectedConnectionGeneration {
                backend_id,
                expected,
                actual,
            } => "backend "@ + debug_form(backend_id) + " event has connection generation "@
                + decimal(actual as nat) + "; expected "@ + decimal(expected as nat),
        }
    }
}

impl AggregateError {
    /// The error as one line.
    pub fn to_text(&self) -> (text: String)
        ensures
            text@ == self@.text(),
    {
        match self {
            AggregateError::ZeroGeneration =>
                "device inventory generation/revision must be nonzero".to_owned(),
            AggregateError::InvalidDevice(error) => concat("invalid device: ", error.as_str()),
            AggregateError::WrongBackendId { expected, actual } => {
                let mut text = concat("device backend ID ", quoted(actual.as_str()).as_str());
                text.append(" does not match source ");
                text.append(quoted(expected.as_str()).as_str());
                text
            },
            AggregateError::DuplicateDevice { backend_id, device_id } => {
                let mut text = concat("duplicate device ", quoted(backend_id.as_str()).as_str());
                text.append("/");
                text.append(quoted(device_id.as_str()).as_str());
                text
            },
            AggregateError::TooManyDevices(count) => {
                let mut text = "aggregate contains ".to_owned();
                push_decimal(&mut text, *count as u64);
                text.append(" devices; limit is ");
                push_decimal(&mut text, MAX_PUBLIC_DEVICES as u64);
                text
            },
            AggregateError::RevisionExhausted =>
                "public inventory revision is exhausted".to_owned(),
            AggregateError::UnexpectedConnectionGeneration { backend_id, expected, actual } => {
                let mut text = concat("backend ", quoted(backend_id.as_str()).as_str());
                text.append(" event has connection generation ");
                push_decimal(&mut text, *actual);
                text.append("; expected ");
                push_decimal(&mut text, *expected);
                text
            },
        }
    }
}

// ---------------------------------------------------------------------------
// Ordered records
// ---------------------------------------------------------------------------

/// Devices in the strict order of their IDs.
pub open spec fn sorted_devices(devices: Seq<DeviceView>) -> bool {
    forall|i: int, j: int|
        0 <= i < j < devices.len() ==> precedes(
            (#[trigger] devices[i]).device_id,
            (#[trigger] devices[j]).device_id,
        )
}

/// Backends in the strict order of their IDs.
pub open spec fn sorted_backends(backends: Seq<BackendView>) -> bool {
    forall|i: int, j: int|
        0 <= i < j < backends.len() ==> precedes(
            (#[trigger] backends[i]).backend_id,
            (#[trigger] backends[j]).backend_id,
        )
}

/// The record with the given ID.
pub open spec fn device_at(devices: Seq<DeviceView>, device_id: Seq<char>) -> Option<DeviceView>
    decreases devices.len(),
{
    if devices.len() == 0 {
        None
    } else {
        match device_at(devices.drop_last(), device_id) {
            Some(device) => Some(device),
            None => if devices.last().device_id == device_id {
                Some(devices.last())
            } else {
                None
            },
        }
    }
}

/// The backend with the given ID.
pub open spec fn backend_at(backends: Seq<BackendView>, backend_id: Seq<char>) -> Option<
    BackendView,
>
    decreases backends.len(),
{
    if backends.len() == 0 {
        None
    } else {
        match backend_at(backends.drop_last(), backend_id) {
            Some(backend) => Some(backend),
            None => if backends.last().backend_id == backend_id {
                Some(backends.last())
            } else {
                None
            },
        }
    }
}

/// `devices` with one more record, at its place in the order.
pub open spec fn insert_device(devices: Seq<DeviceView>, device: DeviceView) -> Seq<DeviceView>
    decreases devices.len(),
{
    if devices.len() == 0 || !precedes(devices[0].device_id, device.device_id) {
        seq![device] + devices
    } else {
        seq![devices[0]] + insert_device(devices.drop_first(), device)
    }
}

/// `backends` with one more entry, at its place in the order.
pub open spec fn insert_backend(backends: Seq<BackendView>, backend: BackendView) -> Seq<
    BackendView,
>
    decreases backends.len(),
{
    if backends.len() == 0 || !precedes(backends[0].backend_id, backend.backend_id) {
        seq![backend] + backends
    } else {
        seq![backends[0]] + insert_backend(backends.drop_first(), backend)
    }
}

/// `backends` with `backend` in the place of the entry with its ID, which is
/// made where there is none.
pub open spec fn put_backend(backends: Seq<BackendView>, backend: BackendView) -> Seq<
    BackendView,
> {
    if backend_at(backends, backend.backend_id) is Some {
        backends.map_values(
            |entry: BackendView|
                if entry.backend_id == backend.backend_id {
                    backend
                } else {
                    entry
                },
        )
    } else {
        insert_backend(backends, backend)
    }
}

/// The number of devices of all backends.
pub open spec fn device_count(backends: Seq<BackendView>) -> nat
    decreases backends.len(),
{
    if backends.len() == 0 {
        0
    } else {
        device_count(backends.drop_last()) + backends.last().devices.len()
    }
}

/// Every device, backend by backend.
pub open spec fn all_devices(backends: Seq<BackendView>) -> Seq<DeviceView>
    decreases backends.len(),
{
    if backends.len() == 0 {
        Seq::empty()
    } else {
        all_devices(backends.drop_last()) + backends.last().devices
    }
}

impl BackendView {
    /// The records are ordered, belong to this backend, and carry a revision
    /// that has been published.
    pub open spec fn wf(self, revision: u64) -> bool {
        &&& sorted_devices(self.devices)
        &&& forall|i: int|
            0 <= i < self.devices.len() ==> {
                &&& (#[trigger] self.devices[i]).backend_id == self.backend_id
                &&& 0 < self.devices[i].device_revision <= revision
            }
    }
}

impl InventoryView {
    pub open spec fn wf(self) -> bool {
        &&& sorted_backends(self.backends)
        &&& forall|i: int|
            0 <= i < self.backends.len() ==> (#[trigger] self.backends[i]).wf(self.revision)
        &&& device_count(self.backends) <= MAX_PUBLIC_DEVICES
    }

    /// The record of one device of one backend.
    pub open spec fn device(self, backend_id: Seq<char>, device_id: Seq<char>) -> Option<
        DeviceView,
    > {
        match backend_at(self.backends, backend_id) {
            Some(backend) => device_at(backend.devices, device_id),
            None => None,
        }
    }

    /// The connection generation of a backend; zero for one that is not known.
    pub open spec fn connection(self, backend_id: Seq<char>) -> u64 {
        match backend_at(self.backends, backend_id) {
            Some(backend) => backend.connection_generation,
            None => 0,
        }
    }

    /// The records of a backend; none for one that is not known.
    pub open spec fn devices_of(self, backend_id: Seq<char>) -> Seq<DeviceView> {
        match backend_at(self.backends, backend_id) {
            Some(backend) => backend.devices,
            None => Seq::empty(),
        }
    }
}


// ---------------------------------------------------------------------------
// Changes
// ---------------------------------------------------------------------------

/// How one device differs between two lists of one backend.
#[derive(Debug)]
enum DeviceChange {
    Added(DeviceInfo),
    Changed(DeviceInfo),
    Removed(String),
}

/// The contents of a device change.
pub enum DeviceChangeView {
    Added(DeviceView),
    Changed(DeviceView),
    Removed(Seq<char>),
}

impl View for DeviceChange {
    type V = DeviceChangeView;

    closed spec fn view(&self) -> DeviceChangeView {
        match *self {
            DeviceChange::Added(device) => DeviceChangeView::Added(device@),
            DeviceChange::Changed(device) => DeviceChangeView::Changed(device@),
            DeviceChange::Removed(device_id) => DeviceChangeView::Removed(device_id@),
        }
    }
}

spec fn changes_view(changes: Seq<DeviceChange>) -> Seq<DeviceChangeView> {
    changes.map_values(|change: DeviceChange| change@)
}

/// The removal of each old device that is not in the new list, in order.
pub open spec fn removals(old: Seq<DeviceView>, new: Seq<DeviceView>) -> Seq<DeviceChangeView>
    decreases old.len(),
{
    if old.len() == 0 {
        Seq::empty()
    } else {
        let earlier = removals(old.drop_last(), new);
        if device_at(new, old.last().device_id) is None {
            earlier.push(DeviceChangeView::Removed(old.last().device_id))
        } else {
            earlier
        }
    }
}

/// The addition of each new device that is not in the old list and the change
/// of each that is there with other contents, in order.
pub open spec fn updates(old: Seq<DeviceView>, new: Seq<DeviceView>) -> Seq<DeviceChangeView>
    decreases new.len(),
{
    if new.len() == 0 {
        Seq::empty()
    } else {
        let earlier = updates(old, new.drop_last());
        match device_at(old, new.last().device_id) {
            None => earlier.push(DeviceChangeView::Added(new.last())),
            Some(previous) => if previous != new.last() {
                earlier.push(DeviceChangeView::Changed(new.last()))
            } else {
                earlier
            },
        }
    }
}

/// What leads from one device list to another: removals, then updates.
pub open spec fn diff(old: Seq<DeviceView>, new: Seq<DeviceView>) -> Seq<DeviceChangeView> {
    removals(old, new) + updates(old, new)
}

/// `devices` with another revision on the record with the given ID.
pub open spec fn restamp(
    devices: Seq<DeviceView>,
    device_id: Seq<char>,
    device_revision: u64,
) -> Seq<DeviceView> {
    devices.map_values(
        |device: DeviceView|
            if device.device_id == device_id {
                DeviceView { device_revision, ..device }
            } else {
                device
            },
    )
}

/// `devices` once each added or changed record carries the revision of its
/// change, counting on from `revision`.
pub open spec fn stamped(
    devices: Seq<DeviceView>,
    changes: Seq<DeviceChangeView>,
    revision: u64,
) -> Seq<DeviceView>
    decreases changes.len(),
{
    if changes.len() == 0 {
        devices
    } else {
        let earlier = stamped(devices, changes.drop_last(), revision);
        let current = (revision + changes.len()) as u64;
        match changes.last() {
            DeviceChangeView::Added(device) => restamp(earlier, device.device_id, current),
            DeviceChangeView::Changed(device) => restamp(earlier, device.device_id, current),
            DeviceChangeView::Removed(_) => earlier,
        }
    }
}

/// The public form of one change.
pub open spec fn event_of(
    backend_id: Seq<char>,
    change: DeviceChangeView,
    inventory_revision: u64,
) -> InventoryEventView {
    match change {
        DeviceChangeView::Added(device) => InventoryEventView::DeviceAdded {
            inventory_revision,
            device: DeviceView { device_revision: inventory_revision, ..device },
        },
        DeviceChangeView::Changed(device) => InventoryEventView::DeviceChanged {
            inventory_revision,
            device: DeviceView { device_revision: inventory_revision, ..device },
        },
        DeviceChangeView::Removed(device_id) => InventoryEventView::DeviceRemoved {
            inventory_revision,
            backend_id,
            device_id,
        },
    }
}

/// One event for each change, each under the next revision.
pub open spec fn events_of(
    backend_id: Seq<char>,
    changes: Seq<DeviceChangeView>,
    revision: u64,
) -> Seq<InventoryEventView> {
    Seq::new(
        changes.len(),
        |i: int| event_of(backend_id, changes[i], (revision + 1 + i) as u64),
    )
}

/// What becomes of an inventory when `backend`, whose new or changed records
/// are not stamped yet, takes its place.
pub open spec fn committed(
    inventory: InventoryView,
    backend: BackendView,
    changes: Seq<DeviceChangeView>,
) -> InventoryView {
    InventoryView {
        revision: (inventory.revision + changes.len()) as u64,
        backends: put_backend(
            inventory.backends,
            BackendView {
                devices: stamped(backend.devices, changes, inventory.revision),
                ..backend
            },
        ),
    }
}

/// The public record of a reported device.
///
/// A record that says nothing new keeps its revision. Any other is unstamped:
/// its revision is zero until the change is committed.
pub open spec fn published(
    device: BackendDeviceView,
    connection_generation: u64,
    discovery_generation: u64,
    existing: Option<DeviceView>,
) -> DeviceView {
    let fresh = DeviceView {
        backend_id: device.backend_id,
        device_id: device.device_id,
        display_name: device.display_name,
        availability: device.availability,
        connection_generation,
        discovery_generation,
        device_revision: 0,
        metadata: device.metadata,
    };
    match existing {
        Some(old) => if (DeviceView { device_revision: 0, ..old }) == fresh {
            old
        } else {
            fresh
        },
        None => fresh,
    }
}

/// The public records of a reported list, or the first thing wrong with it.
pub open spec fn collected(
    devices: Seq<BackendDeviceView>,
    backend_id: Seq<char>,
    connection_generation: u64,
    discovery_generation: u64,
    old: Seq<DeviceView>,
) -> Result<Seq<DeviceView>, AggregateErrorView>
    decreases devices.len(),
{
    if devices.len() == 0 {
        Ok(Seq::empty())
    } else {
        match collected(
            devices.drop_last(),
            backend_id,
            connection_generation,
            discovery_generation,
            old,
        ) {
            Err(error) => Err(error),
            Ok(earlier) => {
                let device = devices.last();
                if device.defect is Some {
                    Err(AggregateErrorView::InvalidDevice(device.defect->0))
                } else if device.backend_id != backend_id {
                    Err(
                        AggregateErrorView::WrongBackendId {
                            expected: backend_id,
                            actual: device.backend_id,
                        },
                    )
                } else if device_at(earlier, device.device_id) is Some {
                    Err(
                        AggregateErrorView::DuplicateDevice {
                            backend_id,
                            device_id: device.device_id,
                        },
                    )
                } else {
                    Ok(
                        insert_device(
                            earlier,
                            published(
                                device,
                                connection_generation,
                                discovery_generation,
                                device_at(old, device.device_id),
                            ),
                        ),
                    )
                }
            },
        }
    }
}

/// What a complete device list does to an inventory: the inventory afterwards
/// and the outcome.
pub open spec fn replaced(
    inventory: InventoryView,
    backend_id: Seq<char>,
    connection_generation: u64,
    discovery_generation: u64,
    revision: u64,
    devices: Seq<BackendDeviceView>,
) -> (InventoryView, Result<OutcomeView, AggregateErrorView>) {
    let old = inventory.devices_of(backend_id);
    if connection_generation < inventory.connection(backend_id) {
        (inventory, Ok(OutcomeView::IgnoredStale))
    } else if connection_generation == 0 || discovery_generation == 0 || revision == 0 {
        (inventory, Err(AggregateErrorView::ZeroGeneration))
    } else {
        match collected(devices, backend_id, connection_generation, discovery_generation, old) {
            Err(error) => (inventory, Err(error)),
            Ok(new) => {
                let total = device_count(inventory.backends) - old.len() + new.len();
                let changes = diff(old, new);
                if total > MAX_PUBLIC_DEVICES {
                    (inventory, Err(AggregateErrorView::TooManyDevices(total)))
                } else if inventory.revision + changes.len() > u64::MAX {
                    (inventory, Err(AggregateErrorView::RevisionExhausted))
                } else {
                    (
                        committed(
                            inventory,
                            BackendView {
                                backend_id,
                                connection_generation,
                                discovery_generation: Some(discovery_generation),
                                devices: new,
                            },
                            changes,
                        ),
                        Ok(
                            OutcomeView::Changed(
                                events_of(backend_id, changes, inventory.revision),
                            ),
                        ),
                    )
                }
            },
        }
    }
}

/// A record of a device that can no longer be reached; unstamped if that is
/// new.
pub open spec fn withdrawn(device: DeviceView) -> DeviceView {
    if device.availability == DeviceAvailability::Unavailable {
        device
    } else {
        DeviceView {
            availability: DeviceAvailability::Unavailable,
            device_revision: 0,
            ..device
        }
    }
}

pub open spec fn all_withdrawn(devices: Seq<DeviceView>) -> Seq<DeviceView> {
    devices.map_values(|device: DeviceView| withdrawn(device))
}

/// What the loss of a backend does to an inventory: the inventory afterwards
/// and the events.
pub open spec fn backend_lost(inventory: InventoryView, backend_id: Seq<char>) -> (
    InventoryView,
    Result<Seq<InventoryEventView>, AggregateErrorView>,
) {
    match backend_at(inventory.backends, backend_id) {
        None => (inventory, Ok(Seq::empty())),
        Some(backend) => {
            let new = all_withdrawn(backend.devices);
            let changes = diff(backend.devices, new);
            if inventory.revision + changes.len() > u64::MAX {
                (inventory, Err(AggregateErrorView::RevisionExhausted))
            } else {
                (
                    committed(inventory, BackendView { devices: new, ..backend }, changes),
                    Ok(events_of(backend_id, changes, inventory.revision)),
                )
            }
        },
    }
}

/// What a newer connection attempt does to an inventory.
pub open spec fn connection_advanced(
    inventory: InventoryView,
    backend_id: Seq<char>,
    connection_generation: u64,
) -> (InventoryView, Result<OutcomeView, AggregateErrorView>) {
    if connection_generation <= inventory.connection(backend_id) {
        (inventory, Ok(OutcomeView::IgnoredStale))
    } else {
        let (lost, result) = backend_lost(inventory, backend_id);
        match result {
            Err(error) => (inventory, Err(error)),
            Ok(events) => (
                InventoryView {
                    backends: put_backend(
                        lost.backends,
                        BackendView {
                            backend_id,
                            connection_generation,
                            discovery_generation: None,
                            devices: lost.devices_of(backend_id),
                        },
                    ),
                    ..lost
                },
                Ok(OutcomeView::Changed(events)),
            ),
        }
    }
}

/// What a supervisor event does to an inventory: the inventory afterwards and
/// the outcome.
pub open spec fn applied(
    inventory: InventoryView,
    backend_id: Seq<char>,
    event: BackendSupervisorEvent,
) -> (InventoryView, Result<OutcomeView, AggregateErrorView>) {
    let current = inventory.connection(backend_id);
    match event {
        BackendSupervisorEvent::Connecting { connection_generation } => connection_advanced(
            inventory,
            backend_id,
            connection_generation,
        ),
        BackendSupervisorEvent::ConnectionFailed { connection_generation } => connection_advanced(
            inventory,
            backend_id,
            connection_generation,
        ),
        BackendSupervisorEvent::Connected {
            connection_generation,
            inventory: snapshot,
        } => snapshot_replaced(inventory, backend_id, connection_generation, snapshot),
        BackendSupervisorEvent::InventoryChanged {
            connection_generation,
            inventory: snapshot,
        } => snapshot_updated(inventory, backend_id, connection_generation, snapshot),
        BackendSupervisorEvent::InventoryResynchronized {
            connection_generation,
            inventory: snapshot,
        } => snapshot_updated(inventory, backend_id, connection_generation, snapshot),
        BackendSupervisorEvent::Disconnected {
            connection_generation,
            reason,
            unavailable_inventory,
        } => snapshot_updated(
            inventory,
            backend_id,
            connection_generation,
            unavailable_inventory,
        ),
        BackendSupervisorEvent::Stopped { last_connection_generation } => {
            if last_connection_generation is Some && last_connection_generation->0 < current {
                (inventory, Ok(OutcomeView::IgnoredStale))
            } else {
                let (lost, result) = backend_lost(inventory, backend_id);
                (
                    lost,
                    match result {
                        Ok(events) => Ok(OutcomeView::Changed(events)),
                        Err(error) => Err(error),
                    },
                )
            }
        },
        BackendSupervisorEvent::ReconnectScheduled => (
            inventory,
            Ok(OutcomeView::Changed(Seq::empty())),
        ),
        BackendSupervisorEvent::ReconnectExhausted => (
            inventory,
            Ok(OutcomeView::Changed(Seq::empty())),
        ),
    }
}

/// [`replaced`], for a whole snapshot.
pub open spec fn snapshot_replaced(
    inventory: InventoryView,
    backend_id: Seq<char>,
    connection_generation: u64,
    snapshot: DeviceInventorySnapshot,
) -> (InventoryView, Result<OutcomeView, AggregateErrorView>) {
    replaced(
        inventory,
        backend_id,
        connection_generation,
        snapshot.discovery_generation,
        snapshot.revision,
        backend_devices_view(snapshot.devices@),
    )
}

/// What a snapshot does that must belong to the current connection.
pub open spec fn snapshot_updated(
    inventory: InventoryView,
    backend_id: Seq<char>,
    connection_generation: u64,
    snapshot: DeviceInventorySnapshot,
) -> (InventoryView, Result<OutcomeView, AggregateErrorView>) {
    let current = inventory.connection(backend_id);
    if connection_generation < current {
        (inventory, Ok(OutcomeView::IgnoredStale))
    } else if connection_generation > current {
        (
            inventory,
            Err(
                AggregateErrorView::UnexpectedConnectionGeneration {
                    backend_id,
                    expected: current,
                    actual: connection_generation,
                },
            ),
        )
    } else {
        snapshot_replaced(inventory, backend_id, connection_generation, snapshot)
    }
}

/// What the loss of several backends, one after the other, does.
pub open spec fn backends_lost(inventory: InventoryView, backend_ids: Seq<Seq<char>>) -> (
    InventoryView,
    Seq<InventoryEventView>,
)
    decreases backend_ids.len(),
{
    if backend_ids.len() == 0 {
        (inventory, Seq::empty())
    } else {
        let (earlier, events) = backends_lost(inventory, backend_ids.drop_last());
        let (lost, result) = backend_lost(earlier, backend_ids.last());
        (lost, events + result->Ok_0)
    }
}

/// The number of devices that are not yet unavailable.
pub open spec fn reachable_count(devices: Seq<DeviceView>) -> nat
    decreases devices.len(),
{
    if devices.len() == 0 {
        0
    } else {
        reachable_count(devices.drop_last()) + if devices.last().availability
            != DeviceAvailability::Unavailable {
            1nat
        } else {
            0nat
        }
    }
}


// ---------------------------------------------------------------------------
// Facts about the records
// ---------------------------------------------------------------------------

proof fn device_at_facts(devices: Seq<DeviceView>, device_id: Seq<char>)
    ensures
        device_at(devices, device_id) is None ==> forall|i: int|
            0 <= i < devices.len() ==> (#[trigger] devices[i]).device_id != device_id,
        device_at(devices, device_id) is Some ==> {
            &&& device_at(devices, device_id)->0.device_id == device_id
            &&& devices.contains(device_at(devices, device_id)->0)
        },
    decreases devices.len(),
{
    if devices.len() > 0 {
        device_at_facts(devices.drop_last(), device_id);
        if device_at(devices.drop_last(), device_id) is Some {
            let device = device_at(devices.drop_last(), device_id)->0;
            let i = choose|i: int|
                0 <= i < devices.drop_last().len() && devices.drop_last()[i] == device;
            assert(devices[i] == device);
        } else {
            assert(devices[devices.len() - 1] == devices.last());
            assert forall|i: int| 0 <= i < devices.len() - 1 implies (
            #[trigger] devices[i]).device_id != device_id by {
                assert(devices.drop_last()[i] == devices[i]);
            }
        }
    }
}

proof fn device_at_index(devices: Seq<DeviceView>, index: int)
    requires
        sorted_devices(devices),
        0 <= index < devices.len(),
    ensures
        device_at(devices, devices[index].device_id) == Some(devices[index]),
{
    let device_id = devices[index].device_id;
    device_at_facts(devices, device_id);
    if device_at(devices, device_id) is Some {
        let device = device_at(devices, device_id)->0;
        let other = choose|i: int| 0 <= i < devices.len() && devices[i] == device;
        precedes_irreflexive(device_id);
    }
}

proof fn backend_at_facts(backends: Seq<BackendView>, backend_id: Seq<char>)
    ensures
        backend_at(backends, backend_id) is None ==> forall|i: int|
            0 <= i < backends.len() ==> (#[trigger] backends[i]).backend_id != backend_id,
        backend_at(backends, backend_id) is Some ==> {
            &&& backend_at(backends, backend_id)->0.backend_id == backend_id
            &&& backends.contains(backend_at(backends, backend_id)->0)
        },
    decreases backends.len(),
{
    if backends.len() > 0 {
        backend_at_facts(backends.drop_last(), backend_id);
        if backend_at(backends.drop_last(), backend_id) is Some {
            let backend = backend_at(backends.drop_last(), backend_id)->0;
            let i = choose|i: int|
                0 <= i < backends.drop_last().len() && backends.drop_last()[i] == backend;
            assert(backends[i] == backend);
        } else {
            assert(backends[backends.len() - 1] == backends.last());
            assert forall|i: int| 0 <= i < backends.len() - 1 implies (
            #[trigger] backends[i]).backend_id != backend_id by {
                assert(backends.drop_last()[i] == backends[i]);
            }
        }
    }
}

proof fn backend_at_index(backends: Seq<BackendView>, index: int)
    requires
        sorted_backends(backends),
        0 <= index < backends.len(),
    ensures
        backend_at(backends, backends[index].backend_id) == Some(backends[index]),
{
    let backend_id = backends[index].backend_id;
    backend_at_facts(backends, backend_id);
    if backend_at(backends, backend_id) is Some {
        let backend = backend_at(backends, backend_id)->0;
        let other = choose|i: int| 0 <= i < backends.len() && backends[i] == backend;
        precedes_irreflexive(backend_id);
    }
}

proof fn insert_device_at(devices: Seq<DeviceView>, device: DeviceView, place: int)
    requires
        0 <= place <= devices.len(),
        forall|i: int|
            0 <= i < place ==> precedes((#[trigger] devices[i]).device_id, device.device_id),
        place < devices.len() ==> !precedes(devices[place].device_id, device.device_id),
    ensures
        insert_device(devices, device) == devices.insert(place, device),
    decreases devices.len(),
{
    if place == 0 {
        assert(seq![device] + devices =~= devices.insert(0, device));
    } else {
        let rest = devices.drop_first();
        assert forall|i: int| 0 <= i < place - 1 implies precedes(
            (#[trigger] rest[i]).device_id,
            device.device_id,
        ) by {
            assert(rest[i] == devices[i + 1]);
        }
        insert_device_at(rest, device, place - 1);
        assert(precedes(devices[0].device_id, device.device_id));
        assert(seq![devices[0]] + rest.insert(place - 1, device) =~= devices.insert(place, device));
    }
}

proof fn insert_backend_at(backends: Seq<BackendView>, backend: BackendView, place: int)
    requires
        0 <= place <= backends.len(),
        forall|i: int|
            0 <= i < place ==> precedes((#[trigger] backends[i]).backend_id, backend.backend_id),
        place < backends.len() ==> !precedes(backends[place].backend_id, backend.backend_id),
    ensures
        insert_backend(backends, backend) == backends.insert(place, backend),
    decreases backends.len(),
{
    if place == 0 {
        assert(seq![backend] + backends =~= backends.insert(0, backend));
    } else {
        let rest = backends.drop_first();
        assert forall|i: int| 0 <= i < place - 1 implies precedes(
            (#[trigger] rest[i]).backend_id,
            backend.backend_id,
        ) by {
            assert(rest[i] == backends[i + 1]);
        }
        insert_backend_at(rest, backend, place - 1);
        assert(precedes(backends[0].backend_id, backend.backend_id));
        assert(seq![backends[0]] + rest.insert(place - 1, backend) =~= backends.insert(
            place,
            backend,
        ));
    }
}

/// Where a device belongs among ordered devices that lack its ID.
proof fn device_place(devices: Seq<DeviceView>, device: DeviceView) -> (place: int)
    requires
        sorted_devices(devices),
    ensures
        0 <= place <= devices.len(),
        forall|i: int|
            0 <= i < place ==> precedes((#[trigger] devices[i]).device_id, device.device_id),
        place < devices.len() ==> !precedes(devices[place].device_id, device.device_id),
    decreases devices.len(),
{
    if devices.len() == 0 || !precedes(devices[0].device_id, device.device_id) {
        0
    } else {
        let rest = devices.drop_first();
        assert(sorted_devices(rest)) by {
            assert forall|i: int, j: int| 0 <= i < j < rest.len() implies precedes(
                (#[trigger] rest[i]).device_id,
                (#[trigger] rest[j]).device_id,
            ) by {
                assert(rest[i] == devices[i + 1]);
                assert(rest[j] == devices[j + 1]);
            }
        }
        let place = device_place(rest, device) + 1;
        assert forall|i: int| 0 <= i < place implies precedes(
            (#[trigger] devices[i]).device_id,
            device.device_id,
        ) by {
            if i > 0 {
                assert(rest[i - 1] == devices[i]);
            }
        }
        place
    }
}

/// Insertion keeps the order and adds exactly the one record.
proof fn insert_device_facts(devices: Seq<DeviceView>, device: DeviceView)
    requires
        sorted_devices(devices),
        device_at(devices, device.device_id) is None,
    ensures
        sorted_devices(insert_device(devices, device)),
        insert_device(devices, device).len() == devices.len() + 1,
        forall|other: DeviceView| #[trigger]
            insert_device(devices, device).contains(other) <==> other == device
                || devices.contains(other),
{
    let place = device_place(devices, device);
    insert_device_at(devices, device, place);
    device_at_facts(devices, device.device_id);
    let all = devices.insert(place, device);
    assert forall|i: int, j: int| 0 <= i < j < all.len() implies precedes(
        (#[trigger] all[i]).device_id,
        (#[trigger] all[j]).device_id,
    ) by {
        if place < devices.len() {
            precedes_total(devices[place].device_id, device.device_id);
        }
        if i == place {
            if j > place + 1 {
                assert(all[j] == devices[j - 1]);
                precedes_transitive(
                    device.device_id,
                    devices[place].device_id,
                    devices[j - 1].device_id,
                );
            }
        }
    }
    assert forall|other: DeviceView| #[trigger] all.contains(other) <==> other == device
        || devices.contains(other) by {
        if other == device {
            assert(all[place] == device);
        } else if devices.contains(other) {
            let i = choose|i: int| 0 <= i < devices.len() && devices[i] == other;
            if i < place {
                assert(all[i] == other);
            } else {
                assert(all[i + 1] == other);
            }
        }
    }
}

// ---------------------------------------------------------------------------
// Operations on the records
// ---------------------------------------------------------------------------

fn find_device(devices: &Vec<DeviceInfo>, device_id: &str) -> (found: Option<usize>)
    ensures
        found matches Some(index) ==> index < devices@.len() && device_at(
            devices_view(devices@),
            device_id@,
        ) == Some(devices@[index as int]@),
        found is None ==> device_at(devices_view(devices@), device_id@) is None,
{
    let ghost all = devices_view(devices@);
    let mut index: usize = 0;
    while index < devices.len()
        invariant
            index <= devices@.len(),
            all == devices_view(devices@),
            device_at(all.take(index as int), device_id@) is None,
        decreases devices@.len() - index,
    {
        proof {
            assert(all.take(index + 1).drop_last() =~= all.take(index as int));
            assert(all.take(index + 1).last() == devices@[index as int]@);
        }
        if same_text(devices[index].device_id.as_str(), device_id) {
            proof {
                device_at_prefix(all, device_id@, index + 1);
            }
            return Some(index);
        }
        index += 1;
    }
    proof {
        assert(all.take(index as int) =~= all);
    }
    None
}

/// What is found in a prefix is what is found in the whole.
proof fn device_at_prefix(devices: Seq<DeviceView>, device_id: Seq<char>, length: int)
    requires
        0 <= length <= devices.len(),
        device_at(devices.take(length), device_id) is Some,
    ensures
        device_at(devices, device_id) == device_at(devices.take(length), device_id),
    decreases devices.len() - length,
{
    if length < devices.len() {
        assert(devices.take(length + 1).drop_last() =~= devices.take(length));
        device_at_prefix(devices, device_id, length + 1);
    } else {
        assert(devices.take(length) =~= devices);
    }
}

fn find_backend(backends: &Vec<BackendInventory>, backend_id: &str) -> (found: Option<usize>)
    requires
        sorted_backends(backends_view(backends@)),
    ensures
        found matches Some(index) ==> index < backends@.len() && backend_at(
            backends_view(backends@),
            backend_id@,
        ) == Some(backends@[index as int]@) && backends@[index as int]@.backend_id == backend_id@,
        found is None ==> backend_at(backends_view(backends@), backend_id@) is None,
{
    let ghost all = backends_view(backends@);
    let mut index: usize = 0;
    while index < backends.len()
        invariant
            index <= backends@.len(),
            all == backends_view(backends@),
            sorted_backends(all),
            forall|i: int| 0 <= i < index ==> (#[trigger] all[i]).backend_id != backend_id@,
        decreases backends@.len() - index,
    {
        if same_text(backends[index].backend_id.as_str(), backend_id) {
            proof {
                assert(all[index as int] == backends@[index as int]@);
                backend_at_index(all, index as int);
            }
            return Some(index);
        }
        index += 1;
    }
    proof {
        backend_at_facts(all, backend_id@);
        if backend_at(all, backend_id@) is Some {
            let backend = backend_at(all, backend_id@)->0;
            let i = choose|i: int| 0 <= i < all.len() && all[i] == backend;
            assert(all[i].backend_id == backend_id@);
        }
    }
    None
}

fn insert_record(devices: &mut Vec<DeviceInfo>, device: DeviceInfo)
    ensures
        devices_view(final(devices)@) == insert_device(devices_view(old(devices)@), device@),
{
    let ghost all = devices_view(devices@);
    let ghost before = devices@;
    let mut place: usize = 0;
    while place < devices.len() && matches!(
        compare(devices[place].device_id.as_str(), device.device_id.as_str()),
        Place::Before
    )
        invariant
            place <= devices@.len(),
            devices@ == before,
            all == devices_view(before),
            forall|i: int|
                0 <= i < place ==> precedes((#[trigger] all[i]).device_id, device@.device_id),
        decreases devices@.len() - place,
    {
        proof {
            assert(all[place as int] == devices@[place as int]@);
        }
        place += 1;
    }
    proof {
        if place < devices@.len() {
            assert(all[place as int] == devices@[place as int]@);
            if all[place as int].device_id == device@.device_id {
                precedes_irreflexive(device@.device_id);
            }
        }
        insert_device_at(all, device@, place as int);
    }
    devices.insert(place, device);
    proof {
        assert(devices_view(devices@) =~= all.insert(place as int, device@));
    }
}

fn clone_devices(devices: &Vec<DeviceInfo>) -> (copy: Vec<DeviceInfo>)
    ensures
        devices_view(copy@) == devices_view(devices@),
{
    let mut copy: Vec<DeviceInfo> = Vec::new();
    let mut index: usize = 0;
    while index < devices.len()
        invariant
            index <= devices@.len(),
            devices_view(copy@) == devices_view(devices@).take(index as int),
        decreases devices@.len() - index,
    {
        let ghost before = devices_view(copy@);
        let device = devices[index].clone();
        copy.push(device);
        index += 1;
        proof {
            assert(devices_view(copy@) =~= before.push(device@));
            assert(devices_view(copy@) =~= devices_view(devices@).take(index as int));
        }
    }
    proof {
        assert(devices_view(devices@).take(index as int) =~= devices_view(devices@));
    }
    copy
}

fn diff_devices(old: &Vec<DeviceInfo>, new: &Vec<DeviceInfo>) -> (changes: Vec<DeviceChange>)
    ensures
        changes_view(changes@) == diff(devices_view(old@), devices_view(new@)),
{
    let ghost before = devices_view(old@);
    let ghost after = devices_view(new@);
    let mut changes: Vec<DeviceChange> = Vec::new();
    let mut index: usize = 0;
    proof {
        assert(changes_view(changes@) =~= removals(before.take(0), after));
    }
    while index < old.len()
        invariant
            index <= old@.len(),
            before == devices_view(old@),
            after == devices_view(new@),
            changes_view(changes@) == removals(before.take(index as int), after),
        decreases old@.len() - index,
    {
        let ghost done = changes_view(changes@);
        proof {
            assert(before.take(index + 1).drop_last() =~= before.take(index as int));
            assert(before.take(index + 1).last() == old@[index as int]@);
        }
        let device_id = &old[index].device_id;
        if find_device(new, device_id.as_str()).is_none() {
            let change = DeviceChange::Removed(device_id.clone());
            changes.push(change);
            proof {
                assert(changes_view(changes@) =~= done.push(change@));
            }
        }
        index += 1;
    }
    let ghost removed = changes_view(changes@);
    proof {
        assert(before.take(index as int) =~= before);
        assert(removed =~= removed + updates(before, after.take(0)));
    }
    let mut next: usize = 0;
    while next < new.len()
        invariant
            next <= new@.len(),
            before == devices_view(old@),
            after == devices_view(new@),
            changes_view(changes@) == removed + updates(before, after.take(next as int)),
        decreases new@.len() - next,
    {
        let ghost done = changes_view(changes@);
        let ghost earlier = updates(before, after.take(next as int));
        proof {
            assert(after.take(next + 1).drop_last() =~= after.take(next as int));
            assert(after.take(next + 1).last() == new@[next as int]@);
        }
        let device = &new[next];
        match find_device(old, device.device_id.as_str()) {
            None => {
                let change = DeviceChange::Added(device.clone());
                changes.push(change);
                proof {
                    assert(changes_view(changes@) =~= done.push(change@));
                    assert(removed + earlier.push(change@) =~= (removed + earlier).push(change@));
                }
            },
            Some(previous) => {
                if !old[previous].same(device) {
                    let change = DeviceChange::Changed(device.clone());
                    changes.push(change);
                    proof {
                        assert(changes_view(changes@) =~= done.push(change@));
                        assert(removed + earlier.push(change@) =~= (removed + earlier).push(
                            change@,
                        ));
                    }
                }
            },
        }
        next += 1;
    }
    proof {
        assert(after.take(next as int) =~= after);
    }
    changes
}

fn restamp_device(devices: &mut Vec<DeviceInfo>, device_id: &str, device_revision: u64)
    ensures
        devices_view(final(devices)@) == restamp(
            devices_view(old(devices)@),
            device_id@,
            device_revision,
        ),
{
    let ghost before = devices_view(devices@);
    let ghost after = restamp(before, device_id@, device_revision);
    let mut index: usize = 0;
    while index < devices.len()
        invariant
            index <= devices@.len(),
            devices@.len() == before.len(),
            after == restamp(before, device_id@, device_revision),
            forall|i: int| 0 <= i < index ==> (#[trigger] devices@[i])@ == after[i],
            forall|i: int| index <= i < before.len() ==> (#[trigger] devices@[i])@ == before[i],
        decreases devices@.len() - index,
    {
        if same_text(devices[index].device_id.as_str(), device_id) {
            devices[index].device_revision = device_revision;
        }
        index += 1;
    }
    proof {
        assert(devices_view(devices@) =~= after);
    }
}

fn revision_events(
    revision: u64,
    backend_id: &str,
    devices: &mut Vec<DeviceInfo>,
    changes: &Vec<DeviceChange>,
) -> (events: Vec<InventoryEvent>)
    requires
        revision + changes@.len() <= u64::MAX,
    ensures
        devices_view(final(devices)@) == stamped(
            devices_view(old(devices)@),
            changes_view(changes@),
            revision,
        ),
        events_view(events@) == events_of(backend_id@, changes_view(changes@), revision),
{
    let ghost before = devices_view(devices@);
    let ghost all = changes_view(changes@);
    let ghost expected = events_of(backend_id@, all, revision);
    let mut events: Vec<InventoryEvent> = Vec::new();
    let mut index: usize = 0;
    proof {
        assert(events_view(events@) =~= expected.take(0));
    }
    while index < changes.len()
        invariant
            index <= changes@.len(),
            revision + changes@.len() <= u64::MAX,
            all == changes_view(changes@),
            expected == events_of(backend_id@, all, revision),
            devices_view(devices@) == stamped(before, all.take(index as int), revision),
            events_view(events@) == expected.take(index as int),
        decreases changes@.len() - index,
    {
        let ghost done = events_view(events@);
        proof {
            assert(all.take(index + 1).drop_last() =~= all.take(index as int));
            assert(all.take(index + 1).last() == changes@[index as int]@);
        }
        let inventory_revision: u64 = revision + 1 + index as u64;
        let event = match &changes[index] {
            DeviceChange::Added(device) => {
                restamp_device(devices, device.device_id.as_str(), inventory_revision);
                let mut device = device.clone();
                device.device_revision = inventory_revision;
                InventoryEvent::DeviceAdded { inventory_revision, device }
            },
            DeviceChange::Changed(device) => {
                restamp_device(devices, device.device_id.as_str(), inventory_revision);
                let mut device = device.clone();
                device.device_revision = inventory_revision;
                InventoryEvent::DeviceChanged { inventory_revision, device }
            },
            DeviceChange::Removed(device_id) => InventoryEvent::DeviceRemoved {
                inventory_revision,
                backend_id: backend_id.to_owned(),
                device_id: device_id.clone(),
            },
        };
        events.push(event);
        index += 1;
        proof {
            assert(events_view(events@) =~= done.push(event@));
            assert(events_view(events@) =~= expected.take(index as int));
        }
    }
    proof {
        assert(all.take(index as int) =~= all);
        assert(expected.take(index as int) =~= expected);
    }
    events
}


fn public_device(
    device: &BackendDevice,
    connection_generation: u64,
    discovery_generation: u64,
    existing: Option<&DeviceInfo>,
) -> (public: DeviceInfo)
    ensures
        public@ == published(
            device@,
            connection_generation,
            discovery_generation,
            match existing {
                Some(old) => Some(old@),
                None => None,
            },
        ),
{
    let mut public = DeviceInfo {
        backend_id: device.backend_id.clone(),
        device_id: device.device_id.clone(),
        display_name: device.display_name.clone(),
        availability: device.availability,
        connection_generation,
        discovery_generation,
        device_revision: 0,
        metadata: clone_metadata(&device.metadata),
    };
    if let Some(old) = existing {
        let materially_unchanged = same_text(old.backend_id.as_str(), device.backend_id.as_str())
            && same_text(old.device_id.as_str(), device.device_id.as_str()) && same_text(
            old.display_name.as_str(),
            device.display_name.as_str(),
        ) && old.availability == device.availability && old.connection_generation
            == connection_generation && old.discovery_generation == discovery_generation
            && same_metadata(&old.metadata, &device.metadata);
        if materially_unchanged {
            public.device_revision = old.device_revision;
        }
    }
    public
}

/// A list that is wrong up to some device is wrong in the same way as a whole.
proof fn collected_prefix_error(
    devices: Seq<BackendDeviceView>,
    backend_id: Seq<char>,
    connection_generation: u64,
    discovery_generation: u64,
    old: Seq<DeviceView>,
    length: int,
)
    requires
        0 <= length <= devices.len(),
        collected(
            devices.take(length),
            backend_id,
            connection_generation,
            discovery_generation,
            old,
        ) is Err,
    ensures
        collected(devices, backend_id, connection_generation, discovery_generation, old)
            == collected(
            devices.take(length),
            backend_id,
            connection_generation,
            discovery_generation,
            old,
        ),
    decreases devices.len() - length,
{
    if length < devices.len() {
        assert(devices.take(length + 1).drop_last() =~= devices.take(length));
        collected_prefix_error(
            devices,
            backend_id,
            connection_generation,
            discovery_generation,
            old,
            length + 1,
        );
    } else {
        assert(devices.take(length) =~= devices);
    }
}

fn collect_devices(
    backend_id: &str,
    connection_generation: u64,
    discovery_generation: u64,
    devices: &Vec<BackendDevice>,
    old: &Vec<DeviceInfo>,
) -> (result: Result<Vec<DeviceInfo>, AggregateError>)
    ensures
        match collected(
            backend_devices_view(devices@),
            backend_id@,
            connection_generation,
            discovery_generation,
            devices_view(old@),
        ) {
            Ok(new) => result is Ok && devices_view(result->Ok_0@) == new,
            Err(error) => result is Err && result->Err_0@ == error,
        },
{
    let ghost all = backend_devices_view(devices@);
    let ghost before = devices_view(old@);
    let mut new: Vec<DeviceInfo> = Vec::new();
    let mut index: usize = 0;
    proof {
        assert(devices_view(new@) =~= Seq::empty());
    }
    while index < devices.len()
        invariant
            index <= devices@.len(),
            all == backend_devices_view(devices@),
            before == devices_view(old@),
            collected(
                all.take(index as int),
                backend_id@,
                connection_generation,
                discovery_generation,
                before,
            ) == Ok::<Seq<DeviceView>, AggregateErrorView>(devices_view(new@)),
        decreases devices@.len() - index,
    {
        let device = &devices[index];
        let ghost upto = collected(
            all.take(index + 1),
            backend_id@,
            connection_generation,
            discovery_generation,
            before,
        );
        proof {
            assert(all.take(index + 1).drop_last() =~= all.take(index as int));
            assert(all.take(index + 1).last() == device@);
            if upto is Err {
                collected_prefix_error(
                    all,
                    backend_id@,
                    connection_generation,
                    discovery_generation,
                    before,
                    index + 1,
                );
            }
        }
        if let Some(defect) = &device.defect {
            return Err(AggregateError::InvalidDevice(defect.clone()));
        }
        if !same_text(device.backend_id.as_str(), backend_id) {
            return Err(
                AggregateError::WrongBackendId {
                    expected: backend_id.to_owned(),
                    actual: device.backend_id.clone(),
                },
            );
        }
        if find_device(&new, device.device_id.as_str()).is_some() {
            return Err(
                AggregateError::DuplicateDevice {
                    backend_id: backend_id.to_owned(),
                    device_id: device.device_id.clone(),
                },
            );
        }
        let existing = match find_device(old, device.device_id.as_str()) {
            Some(place) => Some(&old[place]),
            None => None,
        };
        let public = public_device(device, connection_generation, discovery_generation, existing);
        insert_record(&mut new, public);
        index += 1;
    }
    proof {
        assert(all.take(index as int) =~= all);
    }
    Ok(new)
}

/// What holds of the public records of a good list.
proof fn collected_facts(
    devices: Seq<BackendDeviceView>,
    backend_id: Seq<char>,
    connection_generation: u64,
    discovery_generation: u64,
    old: Seq<DeviceView>,
)
    ensures
        match collected(
            devices,
            backend_id,
            connection_generation,
            discovery_generation,
            old,
        ) {
            Ok(new) => {
                &&& sorted_devices(new)
                &&& new.len() == devices.len()
                &&& forall|i: int|
                    0 <= i < new.len() ==> {
                        &&& (#[trigger] new[i]).backend_id == backend_id
                        &&& device_at(old, new[i].device_id) == Some(new[i])
                            || new[i].device_revision == 0
                    }
            },
            Err(_) => true,
        },
    decreases devices.len(),
{
    if devices.len() > 0 {
        collected_facts(
            devices.drop_last(),
            backend_id,
            connection_generation,
            discovery_generation,
            old,
        );
        match collected(
            devices,
            backend_id,
            connection_generation,
            discovery_generation,
            old,
        ) {
            Ok(new) => {
                let earlier = collected(
                    devices.drop_last(),
                    backend_id,
                    connection_generation,
                    discovery_generation,
                    old,
                )->Ok_0;
                let existing = device_at(old, devices.last().device_id);
                let added = published(
                    devices.last(),
                    connection_generation,
                    discovery_generation,
                    existing,
                );
                device_at_facts(old, devices.last().device_id);
                if existing is Some && added != (DeviceView { device_revision: 0, ..added }) {
                    assert(added == existing->0);
                }
                assert(added.device_id == devices.last().device_id);
                assert(added.backend_id == devices.last().backend_id);
                insert_device_facts(earlier, added);
                assert forall|i: int| 0 <= i < new.len() implies {
                    &&& (#[trigger] new[i]).backend_id == backend_id
                    &&& device_at(old, new[i].device_id) == Some(new[i])
                        || new[i].device_revision == 0
                } by {
                    assert(new.contains(new[i]));
                    if new[i] != added {
                        let j = choose|j: int| 0 <= j < earlier.len() && earlier[j] == new[i];
                        assert(earlier[j].backend_id == backend_id);
                    }
                }
            },
            Err(_) => {},
        }
    }
}

// ---------------------------------------------------------------------------
// Facts about commitment
// ---------------------------------------------------------------------------

impl DeviceChangeView {
    /// The device that a change stamps.
    pub open spec fn stamps(self, device_id: Seq<char>) -> bool {
        match self {
            DeviceChangeView::Added(device) => device.device_id == device_id,
            DeviceChangeView::Changed(device) => device.device_id == device_id,
            DeviceChangeView::Removed(_) => false,
        }
    }
}

/// Stamping changes revisions only: a record keeps its revision if no change
/// stamps it, and has that of the last change that does.
proof fn stamped_facts(
    devices: Seq<DeviceView>,
    changes: Seq<DeviceChangeView>,
    revision: u64,
)
    requires
        revision + changes.len() <= u64::MAX,
    ensures
        stamped(devices, changes, revision).len() == devices.len(),
        forall|i: int|
            0 <= i < devices.len() ==> {
                let after = #[trigger] stamped(devices, changes, revision)[i];
                &&& after == DeviceView { device_revision: after.device_revision, ..devices[i] }
                &&& after == devices[i] || revision < after.device_revision <= revision
                    + changes.len()
            },
        forall|i: int|
            0 <= i < devices.len() && (forall|k: int|
                0 <= k < changes.len() ==> !(#[trigger] changes[k]).stamps(
                    devices[i].device_id,
                )) ==> #[trigger] stamped(devices, changes, revision)[i] == devices[i],
        forall|i: int, k: int|
            0 <= i < devices.len() && 0 <= k < changes.len() && (
            #[trigger] changes[k]).stamps(devices[i].device_id) && (forall|l: int|
                k < l < changes.len() ==> !(#[trigger] changes[l]).stamps(devices[i].device_id))
                ==> (#[trigger] stamped(devices, changes, revision)[i]).device_revision
                == revision + 1 + k,
    decreases changes.len(),
{
    if changes.len() > 0 {
        let earlier = changes.drop_last();
        let before = stamped(devices, earlier, revision);
        let after = stamped(devices, changes, revision);
        stamped_facts(devices, earlier, revision);
        assert(changes[changes.len() - 1] == changes.last());
        assert forall|i: int| 0 <= i < devices.len() && (forall|k: int|
            0 <= k < changes.len() ==> !(#[trigger] changes[k]).stamps(
                devices[i].device_id,
            )) implies #[trigger] after[i] == devices[i] by {
            assert forall|k: int| 0 <= k < earlier.len() implies !(
            #[trigger] earlier[k]).stamps(devices[i].device_id) by {
                assert(earlier[k] == changes[k]);
            }
            assert(before[i] == devices[i]);
            assert(!changes[changes.len() - 1].stamps(devices[i].device_id));
        }
        assert forall|i: int, k: int|
            0 <= i < devices.len() && 0 <= k < changes.len() && (#[trigger] changes[k]).stamps(
                devices[i].device_id,
            ) && (forall|l: int|
                k < l < changes.len() ==> !(#[trigger] changes[l]).stamps(
                    devices[i].device_id,
                )) implies (#[trigger] after[i]).device_revision == revision + 1 + k by {
            if k < changes.len() - 1 {
                assert(earlier[k] == changes[k]);
                assert forall|l: int| k < l < earlier.len() implies !(
                #[trigger] earlier[l]).stamps(devices[i].device_id) by {
                    assert(earlier[l] == changes[l]);
                }
                assert(before[i].device_revision == revision + 1 + k);
                assert(!changes[changes.len() - 1].stamps(devices[i].device_id));
            } else {
                assert(before[i].device_id == devices[i].device_id);
            }
        }
    }
}

/// Each new record that differs from the old one is stamped, and only those.
proof fn updates_facts(old: Seq<DeviceView>, new: Seq<DeviceView>)
    ensures
        updates(old, new).len() <= new.len(),
        forall|i: int|
            0 <= i < new.len() && device_at(old, (#[trigger] new[i]).device_id) != Some(new[i])
                ==> exists|k: int|
                0 <= k < updates(old, new).len() && (#[trigger] updates(old, new)[k]).stamps(
                    new[i].device_id,
                ),
        forall|k: int|
            0 <= k < updates(old, new).len() ==> {
                let change = #[trigger] updates(old, new)[k];
                &&& !(change is Removed)
                &&& change matches DeviceChangeView::Added(device) ==> new.contains(device)
                    && device_at(old, device.device_id) is None
                &&& change matches DeviceChangeView::Changed(device) ==> new.contains(device)
                    && device_at(old, device.device_id) is Some && device_at(
                    old,
                    device.device_id,
                ) != Some(device)
            },
    decreases new.len(),
{
    if new.len() > 0 {
        let earlier = updates(old, new.drop_last());
        let all = updates(old, new);
        updates_facts(old, new.drop_last());
        assert(new[new.len() - 1] == new.last());
        assert forall|i: int|
            0 <= i < new.len() && device_at(old, (#[trigger] new[i]).device_id) != Some(
                new[i],
            ) implies exists|k: int|
            0 <= k < all.len() && (#[trigger] all[k]).stamps(new[i].device_id) by {
            if i < new.len() - 1 {
                assert(new.drop_last()[i] == new[i]);
                let k = choose|k: int|
                    0 <= k < earlier.len() && (#[trigger] earlier[k]).stamps(new[i].device_id);
                assert(all[k] == earlier[k]);
            } else {
                assert(all[all.len() - 1].stamps(new[i].device_id));
            }
        }
        assert forall|k: int| 0 <= k < all.len() implies {
            let change = #[trigger] all[k];
            &&& !(change is Removed)
            &&& change matches DeviceChangeView::Added(device) ==> new.contains(device)
                && device_at(old, device.device_id) is None
            &&& change matches DeviceChangeView::Changed(device) ==> new.contains(device)
                && device_at(old, device.device_id) is Some && device_at(old, device.device_id)
                != Some(device)
        } by {
            assert(new.contains(new.last()));
            if k < earlier.len() {
                assert(all[k] == earlier[k]);
                let device = match all[k] {
                    DeviceChangeView::Added(device) => device,
                    DeviceChangeView::Changed(device) => device,
                    DeviceChangeView::Removed(_) => arbitrary(),
                };
                let i = choose|i: int|
                    0 <= i < new.drop_last().len() && new.drop_last()[i] == device;
                assert(new[i] == device);
            }
        }
    }
}

proof fn removals_facts(old: Seq<DeviceView>, new: Seq<DeviceView>)
    ensures
        removals(old, new).len() <= old.len(),
        forall|k: int|
            0 <= k < removals(old, new).len() ==> {
                let change = #[trigger] removals(old, new)[k];
                change matches DeviceChangeView::Removed(device_id) && device_at(new, device_id)
                    is None && exists|i: int|
                    0 <= i < old.len() && (#[trigger] old[i]).device_id == device_id
            },
    decreases old.len(),
{
    if old.len() > 0 {
        let earlier = removals(old.drop_last(), new);
        let all = removals(old, new);
        removals_facts(old.drop_last(), new);
        assert forall|k: int| 0 <= k < all.len() implies {
            let change = #[trigger] all[k];
            change matches DeviceChangeView::Removed(device_id) && device_at(new, device_id)
                is None && exists|i: int|
                0 <= i < old.len() && (#[trigger] old[i]).device_id == device_id
        } by {
            if k < earlier.len() {
                assert(all[k] == earlier[k]);
                let device_id = earlier[k]->Removed_0;
                let i = choose|i: int|
                    0 <= i < old.drop_last().len() && (
                    #[trigger] old.drop_last()[i]).device_id == device_id;
                assert(old[i].device_id == device_id);
            } else {
                assert(old[old.len() - 1].device_id == old.last().device_id);
            }
        }
    }
}

/// Committed records are ordered, keep their identity, and carry a published
/// revision.
proof fn committed_devices_wf(
    old: Seq<DeviceView>,
    new: Seq<DeviceView>,
    backend_id: Seq<char>,
    revision: u64,
)
    requires
        sorted_devices(old),
        sorted_devices(new),
        forall|i: int| 0 <= i < old.len() ==> 0 < (#[trigger] old[i]).device_revision <= revision,
        forall|i: int|
            0 <= i < new.len() ==> {
                &&& (#[trigger] new[i]).backend_id == backend_id
                &&& device_at(old, new[i].device_id) == Some(new[i]) || new[i].device_revision == 0
            },
        revision + diff(old, new).len() <= u64::MAX,
    ensures
        sorted_devices(stamped(new, diff(old, new), revision)),
        forall|i: int|
            0 <= i < new.len() ==> {
                &&& (#[trigger] stamped(new, diff(old, new), revision)[i]).backend_id == backend_id
                &&& 0 < stamped(new, diff(old, new), revision)[i].device_revision <= revision + diff(
                    old,
                    new,
                ).len()
            },
        stamped(new, diff(old, new), revision).len() == new.len(),
{
    let changes = diff(old, new);
    let after = stamped(new, changes, revision);
    stamped_facts(new, changes, revision);
    updates_facts(old, new);
    assert forall|i: int, j: int| 0 <= i < j < after.len() implies precedes(
        (#[trigger] after[i]).device_id,
        (#[trigger] after[j]).device_id,
    ) by {
        assert(after[i].device_id == new[i].device_id);
        assert(after[j].device_id == new[j].device_id);
    }
    assert forall|i: int| 0 <= i < new.len() implies {
        &&& (#[trigger] after[i]).backend_id == backend_id
        &&& 0 < after[i].device_revision <= revision + changes.len()
    } by {
        assert(new[i].backend_id == backend_id);
        if device_at(old, new[i].device_id) == Some(new[i]) {
            device_at_facts(old, new[i].device_id);
            let j = choose|j: int| 0 <= j < old.len() && old[j] == new[i];
            assert(0 < old[j].device_revision <= revision);
        } else {
            let k = choose|k: int|
                0 <= k < updates(old, new).len() && (#[trigger] updates(old, new)[k]).stamps(
                    new[i].device_id,
                );
            assert(changes[removals(old, new).len() + k] == updates(old, new)[k]);
            stamped_somewhere(new, changes, revision, i, removals(old, new).len() + k);
        }
    }
}

/// A record that some change stamps has a revision above the one before.
proof fn stamped_somewhere(
    devices: Seq<DeviceView>,
    changes: Seq<DeviceChangeView>,
    revision: u64,
    index: int,
    change: int,
)
    requires
        revision + changes.len() <= u64::MAX,
        0 <= index < devices.len(),
        0 <= change < changes.len(),
        changes[change].stamps(devices[index].device_id),
    ensures
        revision < stamped(devices, changes, revision)[index].device_revision <= revision
            + changes.len(),
    decreases changes.len(),
{
    let earlier = changes.drop_last();
    stamped_facts(devices, earlier, revision);
    stamped_facts(devices, changes, revision);
    assert(stamped(devices, earlier, revision)[index].device_id == devices[index].device_id);
    if change < changes.len() - 1 {
        assert(earlier[change] == changes[change]);
        stamped_somewhere(devices, earlier, revision, index, change);
    }
}


// ---------------------------------------------------------------------------
// Facts about backends
// ---------------------------------------------------------------------------

proof fn device_count_insert(backends: Seq<BackendView>, backend: BackendView, place: int)
    requires
        0 <= place <= backends.len(),
    ensures
        device_count(backends.insert(place, backend)) == device_count(backends)
            + backend.devices.len(),
    decreases backends.len(),
{
    let all = backends.insert(place, backend);
    if place == backends.len() {
        assert(all.drop_last() =~= backends);
        assert(all.last() == backend);
    } else {
        assert(all.drop_last() =~= backends.drop_last().insert(place, backend));
        assert(all.last() == backends.last());
        device_count_insert(backends.drop_last(), backend, place);
    }
}

proof fn device_count_update(backends: Seq<BackendView>, backend: BackendView, place: int)
    requires
        0 <= place < backends.len(),
    ensures
        device_count(backends.update(place, backend)) == device_count(backends)
            - backends[place].devices.len() + backend.devices.len(),
        backends[place].devices.len() <= device_count(backends),
    decreases backends.len(),
{
    let all = backends.update(place, backend);
    if place == backends.len() - 1 {
        assert(all.drop_last() =~= backends.drop_last());
    } else {
        assert(all.drop_last() =~= backends.drop_last().update(place, backend));
        device_count_update(backends.drop_last(), backend, place);
    }
}

proof fn backend_place(backends: Seq<BackendView>, backend_id: Seq<char>) -> (place: int)
    requires
        sorted_backends(backends),
    ensures
        0 <= place <= backends.len(),
        forall|i: int|
            0 <= i < place ==> precedes((#[trigger] backends[i]).backend_id, backend_id),
        place < backends.len() ==> !precedes(backends[place].backend_id, backend_id),
    decreases backends.len(),
{
    if backends.len() == 0 || !precedes(backends[0].backend_id, backend_id) {
        0
    } else {
        let rest = backends.drop_first();
        assert(sorted_backends(rest)) by {
            assert forall|i: int, j: int| 0 <= i < j < rest.len() implies precedes(
                (#[trigger] rest[i]).backend_id,
                (#[trigger] rest[j]).backend_id,
            ) by {
                assert(rest[i] == backends[i + 1]);
                assert(rest[j] == backends[j + 1]);
            }
        }
        let place = backend_place(rest, backend_id) + 1;
        assert forall|i: int| 0 <= i < place implies precedes(
            (#[trigger] backends[i]).backend_id,
            backend_id,
        ) by {
            if i > 0 {
                assert(rest[i - 1] == backends[i]);
            }
        }
        place
    }
}

/// Where [`put_backend`] writes: over the entry with the ID, or in its place in
/// the order.
proof fn put_backend_place(backends: Seq<BackendView>, backend: BackendView) -> (place: int)
    requires
        sorted_backends(backends),
    ensures
        backend_at(backends, backend.backend_id) is Some ==> {
            &&& 0 <= place < backends.len()
            &&& backends[place].backend_id == backend.backend_id
            &&& backend_at(backends, backend.backend_id) == Some(backends[place])
            &&& put_backend(backends, backend) == backends.update(place, backend)
        },
        backend_at(backends, backend.backend_id) is None ==> {
            &&& 0 <= place <= backends.len()
            &&& put_backend(backends, backend) == backends.insert(place, backend)
            &&& forall|i: int|
                0 <= i < place ==> precedes((#[trigger] backends[i]).backend_id, backend.backend_id)
            &&& forall|i: int|
                place <= i < backends.len() ==> precedes(
                    backend.backend_id,
                    (#[trigger] backends[i]).backend_id,
                )
        },
{
    backend_at_facts(backends, backend.backend_id);
    match backend_at(backends, backend.backend_id) {
        Some(entry) => {
            let place = choose|i: int| 0 <= i < backends.len() && backends[i] == entry;
            assert forall|i: int| 0 <= i < backends.len() && i != place implies (
            #[trigger] backends[i]).backend_id != backend.backend_id by {
                precedes_irreflexive(backend.backend_id);
                if i < place {
                    assert(precedes(backends[i].backend_id, backends[place].backend_id));
                } else {
                    assert(precedes(backends[place].backend_id, backends[i].backend_id));
                }
            }
            assert(put_backend(backends, backend) =~= backends.update(place, backend));
            place
        },
        None => {
            let place = backend_place(backends, backend.backend_id);
            insert_backend_at(backends, backend, place);
            assert forall|i: int| place <= i < backends.len() implies precedes(
                backend.backend_id,
                (#[trigger] backends[i]).backend_id,
            ) by {
                precedes_total(backends[place].backend_id, backend.backend_id);
                assert(backends[place].backend_id != backend.backend_id);
                if i > place {
                    precedes_transitive(
                        backend.backend_id,
                        backends[place].backend_id,
                        backends[i].backend_id,
                    );
                }
            }
            place
        },
    }
}

/// [`put_backend`] keeps the order, writes the one entry, and leaves the others.
proof fn put_backend_facts(backends: Seq<BackendView>, backend: BackendView)
    requires
        sorted_backends(backends),
    ensures
        sorted_backends(put_backend(backends, backend)),
        backend_at(put_backend(backends, backend), backend.backend_id) == Some(backend),
        forall|other: Seq<char>|
            other != backend.backend_id ==> #[trigger] backend_at(
                put_backend(backends, backend),
                other,
            ) == backend_at(backends, other),
        forall|i: int|
            0 <= i < put_backend(backends, backend).len() ==> (#[trigger] put_backend(
                backends,
                backend,
            )[i]) == backend || backends.contains(put_backend(backends, backend)[i]),
        device_count(put_backend(backends, backend)) == device_count(backends) - (
        match backend_at(backends, backend.backend_id) {
            Some(entry) => entry.devices.len() as int,
            None => 0,
        }) + backend.devices.len(),
        match backend_at(backends, backend.backend_id) {
            Some(entry) => entry.devices.len() <= device_count(backends),
            None => true,
        },
{
    let all = put_backend(backends, backend);
    let place = put_backend_place(backends, backend);
    let known = backend_at(backends, backend.backend_id) is Some;
    if known {
        device_count_update(backends, backend, place);
    } else {
        device_count_insert(backends, backend, place);
    }
    assert forall|i: int, j: int| 0 <= i < j < all.len() implies precedes(
        (#[trigger] all[i]).backend_id,
        (#[trigger] all[j]).backend_id,
    ) by {
        if known {
            assert(all[i].backend_id == backends[i].backend_id);
            assert(all[j].backend_id == backends[j].backend_id);
        } else if i < place && j > place {
            assert(all[i] == backends[i]);
            assert(all[j] == backends[j - 1]);
        } else if i > place {
            assert(all[i] == backends[i - 1]);
            assert(all[j] == backends[j - 1]);
        }
    }
    assert forall|i: int| 0 <= i < all.len() implies (#[trigger] all[i]) == backend
        || backends.contains(all[i]) by {
        if i != place {
            if known || i < place {
                assert(all[i] == backends[i]);
            } else {
                assert(all[i] == backends[i - 1]);
            }
        }
    }
    assert(all[place] == backend);
    backend_at_index(all, place);
    assert forall|other: Seq<char>| other != backend.backend_id implies #[trigger] backend_at(
        all,
        other,
    ) == backend_at(backends, other) by {
        backend_at_facts(all, other);
        backend_at_facts(backends, other);
        match backend_at(backends, other) {
            Some(entry) => {
                let i = choose|i: int| 0 <= i < backends.len() && backends[i] == entry;
                let j = if known || i < place {
                    i
                } else {
                    i + 1
                };
                assert(all[j] == entry);
                backend_at_index(all, j);
            },
            None => {
                match backend_at(all, other) {
                    Some(entry) => {
                        let i = choose|i: int| 0 <= i < all.len() && all[i] == entry;
                        assert(all[i] != backend);
                        assert(backends.contains(all[i]));
                        let j = choose|j: int| 0 <= j < backends.len() && backends[j] == all[i];
                        assert(backends[j].backend_id == other);
                    },
                    None => {},
                }
            },
        }
    }
}

/// Writing a good entry under a revision that is no older keeps an inventory
/// well-formed.
proof fn put_backend_wf(inventory: InventoryView, backend: BackendView, revision: u64)
    requires
        inventory.wf(),
        inventory.revision <= revision,
        backend.wf(revision),
        device_count(inventory.backends) - inventory.devices_of(backend.backend_id).len()
            + backend.devices.len() <= MAX_PUBLIC_DEVICES,
    ensures
        (InventoryView { revision, backends: put_backend(inventory.backends, backend) }).wf(),
{
    put_backend_facts(inventory.backends, backend);
    let all = put_backend(inventory.backends, backend);
    assert forall|i: int| 0 <= i < all.len() implies (#[trigger] all[i]).wf(revision) by {
        if all[i] != backend {
            let j = choose|j: int|
                0 <= j < inventory.backends.len() && inventory.backends[j] == all[i];
            assert(inventory.backends[j].wf(inventory.revision));
        }
    }
}

fn put_record(backends: &mut Vec<BackendInventory>, backend: BackendInventory)
    requires
        sorted_backends(backends_view(old(backends)@)),
    ensures
        backends_view(final(backends)@) == put_backend(backends_view(old(backends)@), backend@),
{
    let ghost all = backends_view(backends@);
    let ghost before = backends@;
    let ghost entry = backend@;
    match find_backend(backends, backend.backend_id.as_str()) {
        Some(index) => {
            proof {
                let place = put_backend_place(all, entry);
                assert(all[index as int] == backends@[index as int]@);
                if place != index {
                    precedes_irreflexive(entry.backend_id);
                    if place < index {
                        assert(precedes(all[place].backend_id, all[index as int].backend_id));
                    } else {
                        assert(precedes(all[index as int].backend_id, all[place].backend_id));
                    }
                }
            }
            backends[index] = backend;
            proof {
                assert(backends_view(backends@) =~= all.update(index as int, entry));
            }
        },
        None => {
            let mut place: usize = 0;
            while place < backends.len() && matches!(
                compare(backends[place].backend_id.as_str(), backend.backend_id.as_str()),
                Place::Before
            )
                invariant
                    place <= backends@.len(),
                    backends@ == before,
                    all == backends_view(before),
                    entry == backend@,
                    forall|i: int|
                        0 <= i < place ==> precedes(
                            (#[trigger] all[i]).backend_id,
                            entry.backend_id,
                        ),
                decreases backends@.len() - place,
            {
                proof {
                    assert(all[place as int] == backends@[place as int]@);
                }
                place += 1;
            }
            proof {
                if place < backends@.len() {
                    assert(all[place as int] == backends@[place as int]@);
                    if all[place as int].backend_id == entry.backend_id {
                        precedes_irreflexive(entry.backend_id);
                    }
                }
                insert_backend_at(all, entry, place as int);
            }
            backends.insert(place, backend);
            proof {
                assert(backends_view(backends@) =~= all.insert(place as int, entry));
            }
        },
    }
}


// ---------------------------------------------------------------------------
// The inventory
// ---------------------------------------------------------------------------

/// The state that a configured display keeps of its device, given what the
/// inventory has.
///
/// Configured displays outlive passive discovery records: the last known
/// identity stays, absence is made explicit, and the revision advances to the
/// one that has seen the removal.
pub open spec fn configured(inventory: InventoryView, previous: DeviceView) -> DeviceView {
    match inventory.device(previous.backend_id, previous.device_id) {
        Some(current) => current,
        None => DeviceView {
            availability: DeviceAvailability::Unavailable,
            device_revision: if inventory.revision >= previous.device_revision {
                inventory.revision
            } else {
                previous.device_revision
            },
            ..previous
        },
    }
}

/// A selection names `device` exactly, and it can be used.
pub open spec fn resolves_to(
    inventory: InventoryView,
    selection: SelectionView,
    device: DeviceView,
) -> bool {
    &&& inventory.device(selection.backend_id, selection.device_id) == Some(device)
    &&& selection == selection_of(device)
    &&& device.availability == DeviceAvailability::Available
}

/// The IDs of all backends, in order.
pub open spec fn backend_ids(backends: Seq<BackendView>) -> Seq<Seq<char>> {
    backends.map_values(|backend: BackendView| backend.backend_id)
}

/// The inventory takes at most the number of devices of one list more.
pub open spec fn snapshot_fits(snapshot: DeviceInventorySnapshot) -> bool {
    snapshot.devices@.len() + MAX_PUBLIC_DEVICES <= usize::MAX
}

/// Lists in an event are short enough to be counted together with the rest.
pub open spec fn event_fits(event: BackendSupervisorEvent) -> bool {
    match event {
        BackendSupervisorEvent::Connected { inventory, .. } => snapshot_fits(inventory),
        BackendSupervisorEvent::InventoryChanged { inventory, .. } => snapshot_fits(inventory),
        BackendSupervisorEvent::InventoryResynchronized { inventory, .. } => snapshot_fits(
            inventory,
        ),
        BackendSupervisorEvent::Disconnected { unavailable_inventory, .. } => snapshot_fits(
            unavailable_inventory,
        ),
        _ => true,
    }
}

/// Whether the lists in an event are short enough to be taken in.
pub fn fits(event: &BackendSupervisorEvent) -> (fits: bool)
    ensures
        fits == event_fits(*event),
{
    let limit: usize = usize::MAX - MAX_PUBLIC_DEVICES;
    match event {
        BackendSupervisorEvent::Connected { inventory, .. } => inventory.devices.len() <= limit,
        BackendSupervisorEvent::InventoryChanged { inventory, .. } => inventory.devices.len()
            <= limit,
        BackendSupervisorEvent::InventoryResynchronized { inventory, .. } =>
            inventory.devices.len() <= limit,
        BackendSupervisorEvent::Disconnected { unavailable_inventory, .. } =>
            unavailable_inventory.devices.len() <= limit,
        _ => true,
    }
}

impl Default for AggregateInventory {
    fn default() -> (inventory: Self)
        ensures
            inventory@ == (InventoryView { revision: 0, backends: Seq::empty() }),
            inventory@.wf(),
    {
        let inventory = AggregateInventory { inventory_revision: 0, backends: Vec::new() };
        proof {
            assert(inventory@.backends =~= Seq::empty());
        }
        inventory
    }
}

impl AggregateInventory {
    /// Every device, in the order of backend and device IDs.
    pub fn snapshot(&self) -> (snapshot: DeviceSnapshot)
        ensures
            snapshot.inventory_revision == self@.revision,
            devices_view(snapshot.devices@) == all_devices(self@.backends),
    {
        let ghost all = self@.backends;
        let mut devices: Vec<DeviceInfo> = Vec::new();
        let mut index: usize = 0;
        proof {
            assert(devices_view(devices@) =~= all_devices(all.take(0)));
        }
        while index < self.backends.len()
            invariant
                index <= self.backends@.len(),
                all == backends_view(self.backends@),
                devices_view(devices@) == all_devices(all.take(index as int)),
            decreases self.backends@.len() - index,
        {
            let ghost before = devices_view(devices@);
            let mut more = clone_devices(&self.backends[index].devices);
            let ghost added = devices_view(more@);
            let ghost held = devices@;
            let ghost fresh = more@;
            devices.append(&mut more);
            proof {
                assert(devices_view(devices@) =~= before + added) by {
                    assert(devices@ =~= held + fresh);
                }
                assert(all.take(index + 1).drop_last() =~= all.take(index as int));
                assert(all.take(index + 1).last() == self.backends@[index as int]@);
            }
            index += 1;
        }
        proof {
            assert(all.take(index as int) =~= all);
        }
        DeviceSnapshot { inventory_revision: self.inventory_revision, devices }
    }

    fn device(&self, backend_id: &str, device_id: &str) -> (found: Option<&DeviceInfo>)
        requires
            self@.wf(),
        ensures
            match found {
                Some(device) => self@.device(backend_id@, device_id@) == Some(device@),
                None => self@.device(backend_id@, device_id@) is None,
            },
    {
        match find_backend(&self.backends, backend_id) {
            None => None,
            Some(index) => {
                let backend = &self.backends[index];
                match find_device(&backend.devices, device_id) {
                    None => None,
                    Some(place) => Some(&backend.devices[place]),
                }
            },
        }
    }

    pub fn configured_device(&self, previous: &DeviceInfo) -> (device: DeviceInfo)
        requires
            self@.wf(),
        ensures
            device@ == configured(self@, previous@),
    {
        if let Some(current) = self.device(
            previous.backend_id.as_str(),
            previous.device_id.as_str(),
        ) {
            return current.clone();
        }
        let mut unavailable = previous.clone();
        unavailable.availability = DeviceAvailability::Unavailable;
        if self.inventory_revision >= unavailable.device_revision {
            unavailable.device_revision = self.inventory_revision;
        }
        unavailable
    }

    /// The device that a selection names, if it still is what was selected and
    /// can be used.
    pub fn resolve_device(&self, selection: &DeviceSelection) -> (result: Result<
        DeviceInfo,
        ResolveDeviceError,
    >)
        requires
            self@.wf(),
        ensures
            forall|device: DeviceView|
                resolves_to(self@, selection@, device) <==> result is Ok && result->Ok_0@ == device,
            match selection.defect {
                Some(defect) => result == Err::<DeviceInfo, _>(
                    ResolveDeviceError::InvalidSelection(defect),
                ),
                None => match self@.device(selection.backend_id@, selection.device_id@) {
                    None => result == Err::<DeviceInfo, _>(
                        ResolveDeviceError::NotFound {
                            backend_id: selection.backend_id,
                            device_id: selection.device_id,
                        },
                    ),
                    Some(device) => if selection@ != selection_of(device) {
                        result == Err::<DeviceInfo, _>(
                            ResolveDeviceError::StaleSelection {
                                backend_id: selection.backend_id,
                                device_id: selection.device_id,
                            },
                        )
                    } else if device.availability != DeviceAvailability::Available {
                        result == Err::<DeviceInfo, _>(
                            ResolveDeviceError::Unavailable {
                                backend_id: selection.backend_id,
                                device_id: selection.device_id,
                                availability: device.availability,
                            },
                        )
                    } else {
                        result is Ok && result->Ok_0@ == device
                    },
                },
            },
    {
        if let Some(defect) = &selection.defect {
            return Err(ResolveDeviceError::InvalidSelection(defect.clone()));
        }
        let device = match self.device(
            selection.backend_id.as_str(),
            selection.device_id.as_str(),
        ) {
            Some(device) => device,
            None => {
                return Err(
                    ResolveDeviceError::NotFound {
                        backend_id: selection.backend_id.clone(),
                        device_id: selection.device_id.clone(),
                    },
                );
            },
        };
        proof {
            backend_at_facts(self@.backends, selection.backend_id@);
            let backend = backend_at(self@.backends, selection.backend_id@)->0;
            let i = choose|i: int| 0 <= i < self@.backends.len() && self@.backends[i] == backend;
            assert(self@.backends[i].wf(self@.revision));
            device_at_facts(backend.devices, selection.device_id@);
            let j = choose|j: int|
                0 <= j < backend.devices.len() && backend.devices[j] == device@;
            assert(backend.devices[j].backend_id == backend.backend_id);
        }
        if device.connection_generation != selection.connection_generation
            || device.discovery_generation != selection.discovery_generation
            || device.device_revision != selection.device_revision {
            return Err(
                ResolveDeviceError::StaleSelection {
                    backend_id: selection.backend_id.clone(),
                    device_id: selection.device_id.clone(),
                },
            );
        }
        proof {
            assert(selection@ =~= selection_of(device@));
        }
        if device.availability != DeviceAvailability::Available {
            return Err(
                ResolveDeviceError::Unavailable {
                    backend_id: selection.backend_id.clone(),
                    device_id: selection.device_id.clone(),
                    availability: device.availability,
                },
            );
        }
        Ok(device.clone())
    }

    /// Take in what a backend supervisor reports.
    pub fn apply_supervisor_event(
        &mut self,
        backend_id: &str,
        event: &BackendSupervisorEvent,
    ) -> (result: Result<ApplySupervisorOutcome, AggregateError>)
        requires
            old(self)@.wf(),
            event_fits(*event),
        ensures
            final(self)@.wf(),
            final(self)@ == applied(old(self)@, backend_id@, *event).0,
            match applied(old(self)@, backend_id@, *event).1 {
                Ok(outcome) => result is Ok && result->Ok_0@ == outcome,
                Err(error) => result is Err && result->Err_0@ == error,
            },
    {
        match event {
            BackendSupervisorEvent::Connecting { connection_generation } => self.advance_connection(
                backend_id,
                *connection_generation,
            ),
            BackendSupervisorEvent::ConnectionFailed {
                connection_generation,
            } => self.advance_connection(backend_id, *connection_generation),
            BackendSupervisorEvent::Connected {
                connection_generation,
                inventory,
            } => self.replace_backend(backend_id, *connection_generation, inventory),
            BackendSupervisorEvent::InventoryChanged {
                connection_generation,
                inventory,
            } => self.update_backend(backend_id, *connection_generation, inventory),
            BackendSupervisorEvent::InventoryResynchronized {
                connection_generation,
                inventory,
            } => self.update_backend(backend_id, *connection_generation, inventory),
            BackendSupervisorEvent::Disconnected {
                connection_generation,
                reason: _,
                unavailable_inventory,
            } => self.update_backend(backend_id, *connection_generation, unavailable_inventory),
            BackendSupervisorEvent::Stopped { last_connection_generation } => {
                if let Some(last) = last_connection_generation {
                    if *last < self.connection(backend_id) {
                        return Ok(ApplySupervisorOutcome::IgnoredStale);
                    }
                }
                match self.mark_backend_unavailable(backend_id) {
                    Ok(events) => Ok(ApplySupervisorOutcome::Changed(events)),
                    Err(error) => Err(error),
                }
            },
            BackendSupervisorEvent::ReconnectScheduled
            | BackendSupervisorEvent::ReconnectExhausted => {
                let events: Vec<InventoryEvent> = Vec::new();
                proof {
                    assert(events_view(events@) =~= Seq::empty());
                }
                Ok(ApplySupervisorOutcome::Changed(events))
            },
        }
    }

    fn connection(&self, backend_id: &str) -> (generation: u64)
        requires
            self@.wf(),
        ensures
            generation == self@.connection(backend_id@),
    {
        match find_backend(&self.backends, backend_id) {
            Some(index) => self.backends[index].connection_generation,
            None => 0,
        }
    }

    fn update_backend(
        &mut self,
        backend_id: &str,
        connection_generation: u64,
        snapshot: &DeviceInventorySnapshot,
    ) -> (result: Result<ApplySupervisorOutcome, AggregateError>)
        requires
            old(self)@.wf(),
            snapshot_fits(*snapshot),
        ensures
            final(self)@.wf(),
            final(self)@ == snapshot_updated(
                old(self)@,
                backend_id@,
                connection_generation,
                *snapshot,
            ).0,
            match snapshot_updated(old(self)@, backend_id@, connection_generation, *snapshot).1 {
                Ok(outcome) => result is Ok && result->Ok_0@ == outcome,
                Err(error) => result is Err && result->Err_0@ == error,
            },
    {
        let current: u64 = self.connection(backend_id);
        if connection_generation < current {
            return Ok(ApplySupervisorOutcome::IgnoredStale);
        }
        if connection_generation > current {
            return Err(
                AggregateError::UnexpectedConnectionGeneration {
                    backend_id: backend_id.to_owned(),
                    expected: current,
                    actual: connection_generation,
                },
            );
        }
        self.replace_backend(backend_id, connection_generation, snapshot)
    }

    fn advance_connection(&mut self, backend_id: &str, connection_generation: u64) -> (result:
        Result<ApplySupervisorOutcome, AggregateError>)
        requires
            old(self)@.wf(),
        ensures
            final(self)@.wf(),
            final(self)@ == connection_advanced(
                old(self)@,
                backend_id@,
                connection_generation,
            ).0,
            match connection_advanced(old(self)@, backend_id@, connection_generation).1 {
                Ok(outcome) => result is Ok && result->Ok_0@ == outcome,
                Err(error) => result is Err && result->Err_0@ == error,
            },
    {
        if connection_generation <= self.connection(backend_id) {
            return Ok(ApplySupervisorOutcome::IgnoredStale);
        }
        match self.mark_backend_unavailable(backend_id) {
            Err(error) => Err(error),
            Ok(events) => {
                let ghost lost = self@;
                let devices = match find_backend(&self.backends, backend_id) {
                    Some(index) => clone_devices(&self.backends[index].devices),
                    None => {
                        let none: Vec<DeviceInfo> = Vec::new();
                        proof {
                            assert(devices_view(none@) =~= Seq::empty());
                        }
                        none
                    },
                };
                let backend = BackendInventory {
                    backend_id: backend_id.to_owned(),
                    connection_generation,
                    discovery_generation: None,
                    devices,
                };
                proof {
                    backend_at_facts(lost.backends, backend_id@);
                    if backend_at(lost.backends, backend_id@) is Some {
                        let entry = backend_at(lost.backends, backend_id@)->0;
                        let i = choose|i: int|
                            0 <= i < lost.backends.len() && lost.backends[i] == entry;
                        assert(lost.backends[i].wf(lost.revision));
                    }
                    assert(backend@.wf(lost.revision));
                    put_backend_wf(lost, backend@, lost.revision);
                }
                put_record(&mut self.backends, backend);
                Ok(ApplySupervisorOutcome::Changed(events))
            },
        }
    }

    fn replace_backend(
        &mut self,
        backend_id: &str,
        connection_generation: u64,
        snapshot: &DeviceInventorySnapshot,
    ) -> (result: Result<ApplySupervisorOutcome, AggregateError>)
        requires
            old(self)@.wf(),
            snapshot_fits(*snapshot),
        ensures
            final(self)@.wf(),
            final(self)@ == snapshot_replaced(
                old(self)@,
                backend_id@,
                connection_generation,
                *snapshot,
            ).0,
            match snapshot_replaced(old(self)@, backend_id@, connection_generation, *snapshot).1 {
                Ok(outcome) => result is Ok && result->Ok_0@ == outcome,
                Err(error) => result is Err && result->Err_0@ == error,
            },
    {
        let ghost before = self@;
        if connection_generation < self.connection(backend_id) {
            return Ok(ApplySupervisorOutcome::IgnoredStale);
        }
        if connection_generation == 0 || snapshot.discovery_generation == 0 || snapshot.revision
            == 0 {
            return Err(AggregateError::ZeroGeneration);
        }
        let old_devices = match find_backend(&self.backends, backend_id) {
            Some(index) => clone_devices(&self.backends[index].devices),
            None => {
                let none: Vec<DeviceInfo> = Vec::new();
                proof {
                    assert(devices_view(none@) =~= Seq::empty());
                }
                none
            },
        };
        let ghost old_view = devices_view(old_devices@);
        let mut new_devices = match collect_devices(
            backend_id,
            connection_generation,
            snapshot.discovery_generation,
            &snapshot.devices,
            &old_devices,
        ) {
            Ok(devices) => devices,
            Err(error) => {
                return Err(error);
            },
        };
        let ghost new_view = devices_view(new_devices@);
        proof {
            collected_facts(
                backend_devices_view(snapshot.devices@),
                backend_id@,
                connection_generation,
                snapshot.discovery_generation,
                old_view,
            );
            put_backend_facts(
                before.backends,
                BackendView {
                    backend_id: backend_id@,
                    connection_generation,
                    discovery_generation: None,
                    devices: old_view,
                },
            );
            backend_at_facts(before.backends, backend_id@);
            if backend_at(before.backends, backend_id@) is Some {
                let entry = backend_at(before.backends, backend_id@)->0;
                let i = choose|i: int|
                    0 <= i < before.backends.len() && before.backends[i] == entry;
                assert(before.backends[i].wf(before.revision));
            }
        }
        let new_total: usize = self.device_count() - old_devices.len() + new_devices.len();
        if new_total > MAX_PUBLIC_DEVICES {
            return Err(AggregateError::TooManyDevices(new_total));
        }
        let changes = diff_devices(&old_devices, &new_devices);
        if let Err(error) = self.ensure_revision_capacity(changes.len()) {
            return Err(error);
        }
        proof {
            committed_devices_wf(old_view, new_view, backend_id@, before.revision);
        }
        let events = revision_events(
            self.inventory_revision,
            backend_id,
            &mut new_devices,
            &changes,
        );
        let backend = BackendInventory {
            backend_id: backend_id.to_owned(),
            connection_generation,
            discovery_generation: Some(snapshot.discovery_generation),
            devices: new_devices,
        };
        let revision: u64 = self.inventory_revision + changes.len() as u64;
        proof {
            assert(changes_view(changes@).len() == changes@.len());
            put_backend_wf(before, backend@, revision);
        }
        put_record(&mut self.backends, backend);
        self.inventory_revision = revision;
        Ok(ApplySupervisorOutcome::Changed(events))
    }

    /// Make every device of a backend unavailable.
    pub fn mark_backend_unavailable(&mut self, backend_id: &str) -> (result: Result<
        Vec<InventoryEvent>,
        AggregateError,
    >)
        requires
            old(self)@.wf(),
        ensures
            final(self)@.wf(),
            final(self)@ == backend_lost(old(self)@, backend_id@).0,
            match backend_lost(old(self)@, backend_id@).1 {
                Ok(events) => result is Ok && events_view(result->Ok_0@) == events,
                Err(error) => result is Err && result->Err_0@ == error,
            },
    {
        let ghost before = self@;
        let index: usize = match find_backend(&self.backends, backend_id) {
            None => {
                let none: Vec<InventoryEvent> = Vec::new();
                proof {
                    assert(events_view(none@) =~= Seq::empty());
                }
                return Ok(none);
            },
            Some(index) => index,
        };
        let ghost entry = self.backends@[index as int]@;
        let mut new_devices = clone_devices(&self.backends[index].devices);
        withdraw_devices(&mut new_devices);
        let changes = diff_devices(&self.backends[index].devices, &new_devices);
        if let Err(error) = self.ensure_revision_capacity(changes.len()) {
            return Err(error);
        }
        proof {
            assert(before.backends[index as int] == entry);
            assert(entry.wf(before.revision));
            withdrawn_facts(entry.devices);
            committed_devices_wf(
                entry.devices,
                all_withdrawn(entry.devices),
                backend_id@,
                before.revision,
            );
        }
        let events = revision_events(
            self.inventory_revision,
            backend_id,
            &mut new_devices,
            &changes,
        );
        let backend = BackendInventory {
            backend_id: backend_id.to_owned(),
            connection_generation: self.backends[index].connection_generation,
            discovery_generation: self.backends[index].discovery_generation,
            devices: new_devices,
        };
        let revision: u64 = self.inventory_revision + changes.len() as u64;
        proof {
            assert(changes_view(changes@).len() == changes@.len());
            put_backend_wf(before, backend@, revision);
        }
        put_record(&mut self.backends, backend);
        self.inventory_revision = revision;
        Ok(events)
    }

    /// Make every device of every backend unavailable.
    pub fn mark_all_unavailable(&mut self) -> (result: Result<Vec<InventoryEvent>, AggregateError>)
        requires
            old(self)@.wf(),
        ensures
            final(self)@.wf(),
            old(self)@.revision + reachable_count(all_devices(old(self)@.backends)) > u64::MAX ==> {
                &&& result == Err::<Vec<InventoryEvent>, _>(AggregateError::RevisionExhausted)
                &&& final(self)@ == old(self)@
            },
            old(self)@.revision + reachable_count(all_devices(old(self)@.backends)) <= u64::MAX
                ==> {
                &&& result is Ok
                &&& (final(self)@, events_view(result->Ok_0@)) == backends_lost(
                    old(self)@,
                    backend_ids(old(self)@.backends),
                )
            },
    {
        let ghost before = self@;
        let ghost ids = backend_ids(before.backends);
        let mut names: Vec<String> = Vec::new();
        let mut required: usize = 0;
        let mut index: usize = 0;
        proof {
            device_count_is_length(before.backends);
            reachable_at_most(all_devices(before.backends));
            assert(before.backends.take(0) =~= Seq::empty());
        }
        while index < self.backends.len()
            invariant
                index <= self.backends@.len(),
                self@ == before,
                before.wf(),
                ids == backend_ids(before.backends),
                before.backends == backends_view(self.backends@),
                reachable_count(all_devices(before.backends)) <= MAX_PUBLIC_DEVICES,
                required == reachable_count(all_devices(before.backends.take(index as int))),
                names@.len() == index,
                forall|i: int| 0 <= i < index ==> (#[trigger] names@[i])@ == ids[i],
            decreases self.backends@.len() - index,
        {
            let backend = &self.backends[index];
            let ghost upto = before.backends.take(index + 1);
            proof {
                assert(before.backends[index as int] == backend@);
                assert(upto.drop_last() =~= before.backends.take(index as int));
                assert(upto.last() == backend@);
                reachable_append(all_devices(upto.drop_last()), backend@.devices);
                reachable_prefix(before.backends, index + 1);
            }
            names.push(backend.backend_id.clone());
            required += reachable_devices(&backend.devices);
            index += 1;
        }
        proof {
            assert(before.backends.take(index as int) =~= before.backends);
        }
        if let Err(error) = self.ensure_revision_capacity(required) {
            return Err(error);
        }
        let mut events: Vec<InventoryEvent> = Vec::new();
        let mut next: usize = 0;
        proof {
            assert(ids.take(0) =~= Seq::empty());
            assert(events_view(events@) =~= Seq::empty());
            assert(before.backends.take(0) =~= Seq::empty());
            assert forall|j: int| 0 <= j < before.backends.len() implies #[trigger] backend_at(
                self@.backends,
                before.backends[j].backend_id,
            ) == Some(before.backends[j]) by {
                backend_at_index(before.backends, j);
            }
        }
        while next < names.len()
            invariant
                next <= names@.len(),
                names@.len() == ids.len(),
                ids == backend_ids(before.backends),
                before.wf(),
                self@.wf(),
                forall|i: int| 0 <= i < ids.len() ==> (#[trigger] names@[i])@ == ids[i],
                before.revision + reachable_count(all_devices(before.backends)) <= u64::MAX,
                (self@, events_view(events@)) == backends_lost(before, ids.take(next as int)),
                self@.revision == before.revision + reachable_count(
                    all_devices(before.backends.take(next as int)),
                ),
                forall|j: int|
                    next <= j < before.backends.len() ==> #[trigger] backend_at(
                        self@.backends,
                        before.backends[j].backend_id,
                    ) == Some(before.backends[j]),
            decreases names@.len() - next,
        {
            let ghost current = self@;
            let ghost done = events_view(events@);
            let ghost held = events@;
            let ghost backend = before.backends[next as int];
            let ghost upto = before.backends.take(next + 1);
            proof {
                assert(names@[next as int]@ == backend.backend_id);
                assert(backend_at(current.backends, backend.backend_id) == Some(backend));
                assert(before.backends[next as int].wf(before.revision));
                withdrawal_changes(backend.devices);
                assert(upto.drop_last() =~= before.backends.take(next as int));
                assert(upto.last() == backend);
                reachable_append(all_devices(upto.drop_last()), backend.devices);
                reachable_prefix(before.backends, next + 1);
                assert(ids.take(next + 1).drop_last() =~= ids.take(next as int));
                assert(ids.take(next + 1).last() == backend.backend_id);
            }
            match self.mark_backend_unavailable(names[next].as_str()) {
                Ok(mut more) => {
                    let ghost fresh = more@;
                    events.append(&mut more);
                    proof {
                        assert(events@ =~= held + fresh);
                        assert(events_view(events@) =~= done + events_view(fresh));
                    }
                },
                Err(error) => {
                    proof {
                        assert(false);
                    }
                    return Err(error);
                },
            }
            proof {
                let changes = diff(backend.devices, all_withdrawn(backend.devices));
                let written = BackendView {
                    devices: stamped(all_withdrawn(backend.devices), changes, current.revision),
                    ..backend
                };
                put_backend_facts(current.backends, written);
                assert forall|j: int| next + 1 <= j < before.backends.len() implies #[trigger]
                    backend_at(self@.backends, before.backends[j].backend_id) == Some(
                    before.backends[j],
                ) by {
                    assert(precedes(
                        before.backends[next as int].backend_id,
                        before.backends[j].backend_id,
                    ));
                    precedes_irreflexive(backend.backend_id);
                }
            }
            next += 1;
        }
        proof {
            assert(ids.take(next as int) =~= ids);
        }
        Ok(events)
    }

    fn device_count(&self) -> (count: usize)
        requires
            self@.wf(),
        ensures
            count == device_count(self@.backends),
    {
        let ghost all = self@.backends;
        let mut count: usize = 0;
        let mut index: usize = 0;
        while index < self.backends.len()
            invariant
                index <= self.backends@.len(),
                all == backends_view(self.backends@),
                device_count(all) <= MAX_PUBLIC_DEVICES,
                count == device_count(all.take(index as int)),
            decreases self.backends@.len() - index,
        {
            proof {
                assert(all.take(index + 1).drop_last() =~= all.take(index as int));
                assert(all.take(index + 1).last() == self.backends@[index as int]@);
                device_count_prefix(all, index + 1);
            }
            count += self.backends[index].devices.len();
            index += 1;
        }
        proof {
            assert(all.take(index as int) =~= all);
        }
        count
    }

    fn ensure_revision_capacity(&self, changes: usize) -> (result: Result<(), AggregateError>)
        ensures
            result is Ok <==> self@.revision + changes <= u64::MAX,
            result is Err ==> result->Err_0 == AggregateError::RevisionExhausted,
    {
        match self.inventory_revision.checked_add(changes as u64) {
            Some(_) => Ok(()),
            None => Err(AggregateError::RevisionExhausted),
        }
    }
}

proof fn device_count_prefix(backends: Seq<BackendView>, length: int)
    requires
        0 <= length <= backends.len(),
    ensures
        device_count(backends.take(length)) <= device_count(backends),
    decreases backends.len() - length,
{
    if length < backends.len() {
        assert(backends.take(length + 1).drop_last() =~= backends.take(length));
        device_count_prefix(backends, length + 1);
    } else {
        assert(backends.take(length) =~= backends);
    }
}

fn withdraw_devices(devices: &mut Vec<DeviceInfo>)
    ensures
        devices_view(final(devices)@) == all_withdrawn(devices_view(old(devices)@)),
{
    let ghost before = devices_view(devices@);
    let ghost after = all_withdrawn(before);
    let mut index: usize = 0;
    while index < devices.len()
        invariant
            index <= devices@.len(),
            devices@.len() == before.len(),
            after == all_withdrawn(before),
            forall|i: int| 0 <= i < index ==> (#[trigger] devices@[i])@ == after[i],
            forall|i: int| index <= i < before.len() ==> (#[trigger] devices@[i])@ == before[i],
        decreases devices@.len() - index,
    {
        if devices[index].availability != DeviceAvailability::Unavailable {
            devices[index].availability = DeviceAvailability::Unavailable;
            devices[index].device_revision = 0;
        }
        index += 1;
    }
    proof {
        assert(devices_view(devices@) =~= after);
    }
}

/// Withdrawing keeps identities and order, and marks exactly the records that
/// it changes.
proof fn withdrawn_facts(devices: Seq<DeviceView>)
    requires
        sorted_devices(devices),
    ensures
        sorted_devices(all_withdrawn(devices)),
        all_withdrawn(devices).len() == devices.len(),
        forall|i: int|
            0 <= i < devices.len() ==> {
                let after = #[trigger] all_withdrawn(devices)[i];
                &&& after.backend_id == devices[i].backend_id
                &&& after.device_id == devices[i].device_id
                &&& device_at(devices, after.device_id) == Some(after) || after.device_revision == 0
            },
{
    let after = all_withdrawn(devices);
    assert forall|i: int, j: int| 0 <= i < j < after.len() implies precedes(
        (#[trigger] after[i]).device_id,
        (#[trigger] after[j]).device_id,
    ) by {
        assert(after[i].device_id == devices[i].device_id);
        assert(after[j].device_id == devices[j].device_id);
    }
    assert forall|i: int| 0 <= i < devices.len() implies device_at(
        devices,
        (#[trigger] after[i]).device_id,
    ) == Some(after[i]) || after[i].device_revision == 0 by {
        device_at_index(devices, i);
    }
}

/// How a configured display's device state follows one inventory event.
pub open spec fn configured_update(current: DeviceView, event: InventoryEventView) -> Option<
    DeviceView,
> {
    match event {
        InventoryEventView::DeviceAdded { device, .. } => if current.backend_id == device.backend_id
            && current.device_id == device.device_id {
            Some(device)
        } else {
            None
        },
        InventoryEventView::DeviceChanged { device, .. } => if current.backend_id
            == device.backend_id && current.device_id == device.device_id {
            Some(device)
        } else {
            None
        },
        InventoryEventView::DeviceRemoved {
            inventory_revision,
            backend_id,
            device_id,
        } => if current.backend_id == backend_id && current.device_id == device_id {
            Some(
                DeviceView {
                    availability: DeviceAvailability::Unavailable,
                    device_revision: inventory_revision,
                    ..current
                },
            )
        } else {
            None
        },
    }
}

pub fn configured_device_update(current: &DeviceInfo, event: &InventoryEvent) -> (update: Option<
    DeviceInfo,
>)
    ensures
        match configured_update(current@, event@) {
            Some(device) => update is Some && update->0@ == device,
            None => update is None,
        },
{
    match event {
        InventoryEvent::DeviceAdded { inventory_revision: _, device }
        | InventoryEvent::DeviceChanged { inventory_revision: _, device } => {
            if current.same_target(device) {
                Some(device.clone())
            } else {
                None
            }
        },
        InventoryEvent::DeviceRemoved { inventory_revision, backend_id, device_id } => {
            if same_text(current.backend_id.as_str(), backend_id.as_str()) && same_text(
                current.device_id.as_str(),
                device_id.as_str(),
            ) {
                let mut unavailable = current.clone();
                unavailable.availability = DeviceAvailability::Unavailable;
                unavailable.device_revision = *inventory_revision;
                Some(unavailable)
            } else {
                None
            }
        },
    }
}


fn reachable_devices(devices: &Vec<DeviceInfo>) -> (count: usize)
    ensures
        count == reachable_count(devices_view(devices@)),
{
    let ghost all = devices_view(devices@);
    let mut count: usize = 0;
    let mut index: usize = 0;
    while index < devices.len()
        invariant
            index <= devices@.len(),
            count <= index,
            all == devices_view(devices@),
            count == reachable_count(all.take(index as int)),
        decreases devices@.len() - index,
    {
        proof {
            assert(all.take(index + 1).drop_last() =~= all.take(index as int));
            assert(all.take(index + 1).last() == devices@[index as int]@);
        }
        if devices[index].availability != DeviceAvailability::Unavailable {
            count += 1;
        }
        index += 1;
    }
    proof {
        assert(all.take(index as int) =~= all);
    }
    count
}

proof fn reachable_append(left: Seq<DeviceView>, right: Seq<DeviceView>)
    ensures
        reachable_count(left + right) == reachable_count(left) + reachable_count(right),
    decreases right.len(),
{
    if right.len() == 0 {
        assert(left + right =~= left);
    } else {
        assert((left + right).drop_last() =~= left + right.drop_last());
        assert((left + right).last() == right.last());
        reachable_append(left, right.drop_last());
    }
}

proof fn reachable_at_most(devices: Seq<DeviceView>)
    ensures
        reachable_count(devices) <= devices.len(),
    decreases devices.len(),
{
    if devices.len() > 0 {
        reachable_at_most(devices.drop_last());
    }
}

proof fn reachable_prefix(backends: Seq<BackendView>, length: int)
    requires
        0 <= length <= backends.len(),
    ensures
        reachable_count(all_devices(backends.take(length))) <= reachable_count(
            all_devices(backends),
        ),
    decreases backends.len() - length,
{
    if length < backends.len() {
        let upto = backends.take(length + 1);
        assert(upto.drop_last() =~= backends.take(length));
        reachable_append(all_devices(upto.drop_last()), upto.last().devices);
        reachable_prefix(backends, length + 1);
    } else {
        assert(backends.take(length) =~= backends);
    }
}

proof fn device_count_is_length(backends: Seq<BackendView>)
    ensures
        device_count(backends) == all_devices(backends).len(),
    decreases backends.len(),
{
    if backends.len() > 0 {
        device_count_is_length(backends.drop_last());
    }
}

/// Withdrawing all devices changes each that was reachable, once.
proof fn withdrawal_changes(devices: Seq<DeviceView>)
    requires
        sorted_devices(devices),
    ensures
        diff(devices, all_withdrawn(devices)).len() == reachable_count(devices),
{
    let after = all_withdrawn(devices);
    withdrawn_facts(devices);
    removals_facts(devices, after);
    if removals(devices, after).len() > 0 {
        let device_id = removals(devices, after)[0]->Removed_0;
        let i = choose|i: int|
            0 <= i < devices.len() && (#[trigger] devices[i]).device_id == device_id;
        device_at_facts(after, device_id);
        assert(after[i].device_id == device_id);
    }
    withdrawal_updates(devices, devices.len() as int);
    assert(after.take(devices.len() as int) =~= after);
    assert(devices.take(devices.len() as int) =~= devices);
}

proof fn withdrawal_updates(devices: Seq<DeviceView>, length: int)
    requires
        sorted_devices(devices),
        0 <= length <= devices.len(),
    ensures
        updates(devices, all_withdrawn(devices).take(length)).len() == reachable_count(
            devices.take(length),
        ),
    decreases length,
{
    let after = all_withdrawn(devices);
    if length > 0 {
        assert(after.take(length).drop_last() =~= after.take(length - 1));
        assert(devices.take(length).drop_last() =~= devices.take(length - 1));
        withdrawal_updates(devices, length - 1);
        device_at_index(devices, length - 1);
        assert(after.take(length).last() == withdrawn(devices[length - 1]));
    }
}

} // verus!
