//! Plain values exchanged with device backends and with bus clients.

use crate::order::same_text;
use vstd::prelude::*;

verus! {

/// Most devices that the aggregate inventory publishes at once.
pub const MAX_PUBLIC_DEVICES: usize = 256;

#[derive(Debug, Clone, Copy, PartialEq, Eq, Structural)]
pub enum DeviceAvailability {
    Available,
    Busy,
    Unavailable,
}

impl DeviceAvailability {
    /// The availability as a word.
    pub open spec fn word(self) -> Seq<char> {
        match self {
            DeviceAvailability::Available => "available"@,
            DeviceAvailability::Busy => "busy"@,
            DeviceAvailability::Unavailable => "unavailable"@,
        }
    }

    pub fn as_word(self) -> (word: &'static str)
        ensures
            word@ == self.word(),
    {
        match self {
            DeviceAvailability::Available => "available",
            DeviceAvailability::Busy => "busy",
            DeviceAvailability::Unavailable => "unavailable",
        }
    }
}

/// One key and value learned while discovering a device.
#[derive(Debug, PartialEq, Eq)]
pub struct DiscoveryMetadataEntry {
    pub key: String,
    pub value: String,
}

impl View for DiscoveryMetadataEntry {
    type V = (Seq<char>, Seq<char>);

    open spec fn view(&self) -> (Seq<char>, Seq<char>) {
        (self.key@, self.value@)
    }
}

impl Clone for DiscoveryMetadataEntry {
    fn clone(&self) -> (copy: Self)
        ensures
            copy@ == self@,
    {
        DiscoveryMetadataEntry { key: self.key.clone(), value: self.value.clone() }
    }
}

/// The contents of a metadata list.
pub open spec fn metadata_view(entries: Seq<DiscoveryMetadataEntry>) -> Seq<
    (Seq<char>, Seq<char>),
> {
    entries.map_values(|entry: DiscoveryMetadataEntry| entry@)
}

pub fn clone_metadata(entries: &Vec<DiscoveryMetadataEntry>) -> (copy: Vec<DiscoveryMetadataEntry>)
    ensures
        metadata_view(copy@) == metadata_view(entries@),
{
    let mut copy: Vec<DiscoveryMetadataEntry> = Vec::new();
    let mut index: usize = 0;
    while index < entries.len()
        invariant
            index <= entries@.len(),
            metadata_view(copy@) == metadata_view(entries@).take(index as int),
        decreases entries@.len() - index,
    {
        let ghost before = metadata_view(copy@);
        let entry = entries[index].clone();
        copy.push(entry);
        proof {
            assert(metadata_view(copy@) =~= before.push(entry@));
        }
        index += 1;
        proof {
            assert(metadata_view(copy@) =~= metadata_view(entries@).take(index as int));
        }
    }
    proof {
        assert(metadata_view(entries@).take(index as int) =~= metadata_view(entries@));
    }
    copy
}

pub fn same_metadata(
    left: &Vec<DiscoveryMetadataEntry>,
    right: &Vec<DiscoveryMetadataEntry>,
) -> (same: bool)
    ensures
        same == (metadata_view(left@) == metadata_view(right@)),
{
    if left.len() != right.len() {
        proof {
            assert(metadata_view(left@).len() != metadata_view(right@).len());
        }
        return false;
    }
    let mut index: usize = 0;
    while index < left.len()
        invariant
            index <= left@.len(),
            left@.len() == right@.len(),
            forall|k: int| 0 <= k < index ==> left@[k]@ == right@[k]@,
        decreases left@.len() - index,
    {
        if !same_text(left[index].key.as_str(), right[index].key.as_str()) || !same_text(
            left[index].value.as_str(),
            right[index].value.as_str(),
        ) {
            proof {
                assert(metadata_view(left@)[index as int] != metadata_view(right@)[index as int]);
            }
            return false;
        }
        index += 1;
    }
    proof {
        assert(metadata_view(left@) =~= metadata_view(right@));
    }
    true
}

/// One device as bus clients see it.
#[derive(Debug, PartialEq, Eq)]
pub struct DeviceInfo {
    pub backend_id: String,
    pub device_id: String,
    pub display_name: String,
    pub availability: DeviceAvailability,
    pub connection_generation: u64,
    pub discovery_generation: u64,
    pub device_revision: u64,
    pub metadata: Vec<DiscoveryMetadataEntry>,
}

/// The contents of a [`DeviceInfo`].
#[verifier::ext_equal]
pub struct DeviceView {
    pub backend_id: Seq<char>,
    pub device_id: Seq<char>,
    pub display_name: Seq<char>,
    pub availability: DeviceAvailability,
    pub connection_generation: u64,
    pub discovery_generation: u64,
    pub device_revision: u64,
    pub metadata: Seq<(Seq<char>, Seq<char>)>,
}

impl View for DeviceInfo {
    type V = DeviceView;

    open spec fn view(&self) -> DeviceView {
        DeviceView {
            backend_id: self.backend_id@,
            device_id: self.device_id@,
            display_name: self.display_name@,
            availability: self.availability,
            connection_generation: self.connection_generation,
            discovery_generation: self.discovery_generation,
            device_revision: self.device_revision,
            metadata: metadata_view(self.metadata@),
        }
    }
}

impl Clone for DeviceInfo {
    fn clone(&self) -> (copy: Self)
        ensures
            copy@ == self@,
    {
        DeviceInfo {
            backend_id: self.backend_id.clone(),
            device_id: self.device_id.clone(),
            display_name: self.display_name.clone(),
            availability: self.availability,
            connection_generation: self.connection_generation,
            discovery_generation: self.discovery_generation,
            device_revision: self.device_revision,
            metadata: clone_metadata(&self.metadata),
        }
    }
}

impl DeviceInfo {
    /// Whether two records have the same contents.
    pub fn same(&self, other: &DeviceInfo) -> (same: bool)
        ensures
            same == (self@ == other@),
    {
        same_text(self.backend_id.as_str(), other.backend_id.as_str()) && same_text(
            self.device_id.as_str(),
            other.device_id.as_str(),
        ) && same_text(self.display_name.as_str(), other.display_name.as_str())
            && self.availability == other.availability && self.connection_generation
            == other.connection_generation && self.discovery_generation
            == other.discovery_generation && self.device_revision == other.device_revision
            && same_metadata(&self.metadata, &other.metadata)
    }

    /// Whether two records describe one device of one backend.
    pub fn same_target(&self, other: &DeviceInfo) -> (same: bool)
        ensures
            same == (self@.backend_id == other@.backend_id && self@.device_id
                == other@.device_id),
    {
        same_text(self.backend_id.as_str(), other.backend_id.as_str()) && same_text(
            self.device_id.as_str(),
            other.device_id.as_str(),
        )
    }
}

/// The contents of a device list.
pub open spec fn devices_view(devices: Seq<DeviceInfo>) -> Seq<DeviceView> {
    devices.map_values(|device: DeviceInfo| device@)
}

/// One device as its backend reports it.
///
/// `defect` is what the backend protocol's own validation found wrong with the
/// record, if anything.
#[derive(Debug, PartialEq, Eq)]
pub struct BackendDevice {
    pub backend_id: String,
    pub device_id: String,
    pub display_name: String,
    pub availability: DeviceAvailability,
    pub metadata: Vec<DiscoveryMetadataEntry>,
    pub defect: Option<String>,
}

/// The contents of a [`BackendDevice`].
#[verifier::ext_equal]
pub struct BackendDeviceView {
    pub backend_id: Seq<char>,
    pub device_id: Seq<char>,
    pub display_name: Seq<char>,
    pub availability: DeviceAvailability,
    pub metadata: Seq<(Seq<char>, Seq<char>)>,
    pub defect: Option<Seq<char>>,
}

impl View for BackendDevice {
    type V = BackendDeviceView;

    open spec fn view(&self) -> BackendDeviceView {
        BackendDeviceView {
            backend_id: self.backend_id@,
            device_id: self.device_id@,
            display_name: self.display_name@,
            availability: self.availability,
            metadata: metadata_view(self.metadata@),
            defect: text_view(self.defect),
        }
    }
}

/// The contents of a reported device list.
pub open spec fn backend_devices_view(devices: Seq<BackendDevice>) -> Seq<BackendDeviceView> {
    devices.map_values(|device: BackendDevice| device@)
}

/// A complete device list of one backend.
#[derive(Debug, PartialEq, Eq)]
pub struct DeviceInventorySnapshot {
    pub discovery_generation: u64,
    pub revision: u64,
    pub devices: Vec<BackendDevice>,
}

/// Every published device, in order, with the revision they belong to.
#[derive(Debug, PartialEq, Eq)]
pub struct DeviceSnapshot {
    pub inventory_revision: u64,
    pub devices: Vec<DeviceInfo>,
}

/// A client's reference to one exact inventory record.
///
/// `defect` is what the bus protocol's own validation found wrong with the
/// reference, if anything.
#[derive(Debug, PartialEq, Eq)]
pub struct DeviceSelection {
    pub backend_id: String,
    pub device_id: String,
    pub connection_generation: u64,
    pub discovery_generation: u64,
    pub device_revision: u64,
    pub defect: Option<String>,
}

/// The contents of a [`DeviceSelection`].
#[verifier::ext_equal]
pub struct SelectionView {
    pub backend_id: Seq<char>,
    pub device_id: Seq<char>,
    pub connection_generation: u64,
    pub discovery_generation: u64,
    pub device_revision: u64,
    pub defect: Option<Seq<char>>,
}

/// The contents of an optional text.
pub open spec fn text_view(text: Option<String>) -> Option<Seq<char>> {
    match text {
        Some(text) => Some(text@),
        None => None,
    }
}

pub fn clone_text(text: &Option<String>) -> (copy: Option<String>)
    ensures
        copy == *text,
{
    match text {
        Some(text) => Some(text.clone()),
        None => None,
    }
}

/// The reference that a current record yields.
pub open spec fn selection_of(device: DeviceView) -> SelectionView {
    SelectionView {
        backend_id: device.backend_id,
        device_id: device.device_id,
        connection_generation: device.connection_generation,
        discovery_generation: device.discovery_generation,
        device_revision: device.device_revision,
        defect: None,
    }
}

impl View for DeviceSelection {
    type V = SelectionView;

    open spec fn view(&self) -> SelectionView {
        SelectionView {
            backend_id: self.backend_id@,
            device_id: self.device_id@,
            connection_generation: self.connection_generation,
            discovery_generation: self.discovery_generation,
            device_revision: self.device_revision,
            defect: text_view(self.defect),
        }
    }
}

impl Clone for DeviceSelection {
    fn clone(&self) -> (copy: Self)
        ensures
            copy@ == self@,
    {
        DeviceSelection {
            backend_id: self.backend_id.clone(),
            device_id: self.device_id.clone(),
            connection_generation: self.connection_generation,
            discovery_generation: self.discovery_generation,
            device_revision: self.device_revision,
            defect: clone_text(&self.defect),
        }
    }
}

impl DeviceSelection {
    pub fn from_device(device: &DeviceInfo) -> (selection: Self)
        ensures
            selection@ == selection_of(device@),
    {
        DeviceSelection {
            backend_id: device.backend_id.clone(),
            device_id: device.device_id.clone(),
            connection_generation: device.connection_generation,
            discovery_generation: device.discovery_generation,
            device_revision: device.device_revision,
            defect: None,
        }
    }
}

/// Why a backend connection ended.
#[derive(Debug, Clone, Copy, PartialEq, Eq, Structural)]
pub enum BackendDisconnectReason {
    ConnectionClosed,
    ProtocolError,
    Requested,
}

/// What a backend supervisor reports about its backend.
#[derive(Debug, PartialEq, Eq)]
pub enum BackendSupervisorEvent {
    Connecting { connection_generation: u64 },
    ConnectionFailed { connection_generation: u64 },
    Connected { connection_generation: u64, inventory: DeviceInventorySnapshot },
    InventoryChanged { connection_generation: u64, inventory: DeviceInventorySnapshot },
    InventoryResynchronized { connection_generation: u64, inventory: DeviceInventorySnapshot },
    Disconnected {
        connection_generation: u64,
        reason: BackendDisconnectReason,
        unavailable_inventory: DeviceInventorySnapshot,
    },
    ReconnectScheduled,
    ReconnectExhausted,
    Stopped { last_connection_generation: Option<u64> },
}

/// A device shows all that is recorded of it, and its metadata entry by entry.
pub proof fn devices_show_all_that_is_recorded(device: DeviceInfo, i: int)
    ensures
        device@.backend_id == device.backend_id@,
        device@.device_id == device.device_id@,
        device@.display_name == device.display_name@,
        device@.availability == device.availability,
        device@.connection_generation == device.connection_generation,
        device@.discovery_generation == device.discovery_generation,
        device@.device_revision == device.device_revision,
        device@.metadata.len() == device.metadata@.len(),
        0 <= i < device.metadata@.len() ==> device@.metadata[i] == (
            device.metadata@[i].key@,
            device.metadata@[i].value@,
        ),
{
}

/// A device of a backend shows all that the backend tells of it.
pub proof fn backend_devices_show_all_that_is_told(device: BackendDevice, i: int)
    ensures
        device@.backend_id == device.backend_id@,
        device@.device_id == device.device_id@,
        device@.display_name == device.display_name@,
        device@.availability == device.availability,
        device@.defect is Some <==> device.defect is Some,
        device.defect is Some ==> device@.defect->0 == device.defect->0@,
        device@.metadata.len() == device.metadata@.len(),
        0 <= i < device.metadata@.len() ==> device@.metadata[i] == (
            device.metadata@[i].key@,
            device.metadata@[i].value@,
        ),
{
}

/// A selection of a device names its record, and no defect: two devices have the
/// same selection only if they are the same record of the same device.
pub proof fn selections_tell_records_apart(
    left: DeviceView,
    right: DeviceView,
    selection: DeviceSelection,
)
    ensures
        selection_of(left).defect is None,
        selection_of(left) == selection_of(right) <==> left.backend_id == right.backend_id
            && left.device_id == right.device_id && left.connection_generation
            == right.connection_generation && left.discovery_generation
            == right.discovery_generation && left.device_revision == right.device_revision,
        selection@ == selection_of(left) <==> selection.backend_id@ == left.backend_id
            && selection.device_id@ == left.device_id && selection.connection_generation
            == left.connection_generation && selection.discovery_generation
            == left.discovery_generation && selection.device_revision == left.device_revision
            && selection.defect is None,
        selection@.defect is Some <==> selection.defect is Some,
        selection.defect is Some ==> selection@.defect->0 == selection.defect->0@,
{
}

/// A list of devices is shown device by device, in order.
pub proof fn lists_show_each_device(infos: Seq<DeviceInfo>, told: Seq<BackendDevice>, i: int)
    ensures
        devices_view(infos).len() == infos.len(),
        backend_devices_view(told).len() == told.len(),
        0 <= i < infos.len() ==> devices_view(infos)[i] == infos[i]@,
        0 <= i < told.len() ==> backend_devices_view(told)[i] == told[i]@,
{
}

/// Each availability has its own word.
pub proof fn availabilities_have_words_of_their_own(
    left: DeviceAvailability,
    right: DeviceAvailability,
)
    ensures
        left.word() == right.word() <==> left == right,
        left is Busy <==> left.word() == "busy"@,
        left is Available <==> left.word() == "available"@,
        left is Unavailable <==> left.word() == "un"@ + "available"@,
{
    reveal_strlit("busy");
    reveal_strlit("available");
    reveal_strlit("unavailable");
    reveal_strlit("un");
    assert("unavailable"@ =~= "un"@ + "available"@);
    assert("available"@.len() == 9 && "busy"@.len() == 4 && "unavailable"@.len() == 11);
}

} // verus!
