//! The manager's view of backends, devices and displays.

pub mod backend_worker;
pub mod display_lifecycle;
pub mod inventory;
pub mod publication;
pub mod runtime;
pub mod shutdown;

use crate::order::same_text;
use crate::protocol::{
    selection_of, DeviceAvailability, DeviceInfo, DeviceSelection, DeviceView,
};
use crate::text::{concat, debug_form, decimal, push_decimal, quoted, texts_view};
use vstd::prelude::*;
use vstd::string::*;

verus! {

/// A published change of the device inventory.
#[derive(Debug, PartialEq, Eq)]
pub enum InventoryEvent {
    DeviceAdded { inventory_revision: u64, device: DeviceInfo },
    DeviceChanged { inventory_revision: u64, device: DeviceInfo },
    DeviceRemoved { inventory_revision: u64, backend_id: String, device_id: String },
}

/// The contents of an [`InventoryEvent`].
pub enum InventoryEventView {
    DeviceAdded { inventory_revision: u64, device: DeviceView },
    DeviceChanged { inventory_revision: u64, device: DeviceView },
    DeviceRemoved { inventory_revision: u64, backend_id: Seq<char>, device_id: Seq<char> },
}

impl InventoryEventView {
    /// The inventory revision that the event belongs to.
    pub open spec fn revision(self) -> u64 {
        match self {
            InventoryEventView::DeviceAdded { inventory_revision, .. } => inventory_revision,
            InventoryEventView::DeviceChanged { inventory_revision, .. } => inventory_revision,
            InventoryEventView::DeviceRemoved { inventory_revision, .. } => inventory_revision,
        }
    }

    /// The device that the event is about.
    pub open spec fn device_id(self) -> Seq<char> {
        match self {
            InventoryEventView::DeviceAdded { device, .. } => device.device_id,
            InventoryEventView::DeviceChanged { device, .. } => device.device_id,
            InventoryEventView::DeviceRemoved { device_id, .. } => device_id,
        }
    }
}

impl View for InventoryEvent {
    type V = InventoryEventView;

    open spec fn view(&self) -> InventoryEventView {
        match *self {
            InventoryEvent::DeviceAdded {
                inventory_revision,
                device,
            } => InventoryEventView::DeviceAdded { inventory_revision, device: device@ },
            InventoryEvent::DeviceChanged {
                inventory_revision,
                device,
            } => InventoryEventView::DeviceChanged { inventory_revision, device: device@ },
            InventoryEvent::DeviceRemoved {
                inventory_revision,
                backend_id,
                device_id,
            } => InventoryEventView::DeviceRemoved {
                inventory_revision,
                backend_id: backend_id@,
                device_id: device_id@,
            },
        }
    }
}

impl Clone for InventoryEvent {
    fn clone(&self) -> (copy: Self)
        ensures
            copy@ == self@,
    {
        match self {
            InventoryEvent::DeviceAdded {
                inventory_revision,
                device,
            } => InventoryEvent::DeviceAdded {
                inventory_revision: *inventory_revision,
                device: device.clone(),
            },
            InventoryEvent::DeviceChanged {
                inventory_revision,
                device,
            } => InventoryEvent::DeviceChanged {
                inventory_revision: *inventory_revision,
                device: device.clone(),
            },
            InventoryEvent::DeviceRemoved {
                inventory_revision,
                backend_id,
                device_id,
            } => InventoryEvent::DeviceRemoved {
                inventory_revision: *inventory_revision,
                backend_id: backend_id.clone(),
                device_id: device_id.clone(),
            },
        }
    }
}

/// The contents of a list of events.
pub open spec fn events_view(events: Seq<InventoryEvent>) -> Seq<InventoryEventView> {
    events.map_values(|event: InventoryEvent| event@)
}

/// Why a selected device cannot be used.
#[derive(Debug, PartialEq, Eq)]
pub enum ResolveDeviceError {
    ManagerStopped,
    InvalidSelection(String),
    NotFound { backend_id: String, device_id: String },
    StaleSelection { backend_id: String, device_id: String },
    Unavailable { backend_id: String, device_id: String, availability: DeviceAvailability },
    BackendUnavailable { backend_id: String },
}

/// A device as it is named in errors.
pub open spec fn device_name(backend_id: Seq<char>, device_id: Seq<char>) -> Seq<char> {
    "device "@ + debug_form(backend_id) + "/"@ + debug_form(device_id)
}

fn named_device(backend_id: &String, device_id: &String) -> (name: String)
    ensures
        name@ == device_name(backend_id@, device_id@),
{
    let mut name = concat("device ", quoted(backend_id.as_str()).as_str());
    name.append("/");
    name.append(quoted(device_id.as_str()).as_str());
    name
}

impl ResolveDeviceError {
    /// The error as one line.
    pub open spec fn text(self) -> Seq<char> {
        match self {
            ResolveDeviceError::ManagerStopped => "Pronk manager has stopped"@,
            ResolveDeviceError::InvalidSelection(error) =>
                "invalid device selection: "@ + error@,
            ResolveDeviceError::NotFound { backend_id, device_id } =>
                device_name(backend_id@, device_id@) + " was not found"@,
            ResolveDeviceError::StaleSelection { backend_id, device_id } =>
                device_name(backend_id@, device_id@) + " changed since it was selected"@,
            ResolveDeviceError::Unavailable { backend_id, device_id, availability } =>
                device_name(backend_id@, device_id@) + " is "@ + availability.word(),
            ResolveDeviceError::BackendUnavailable { backend_id } =>
                "backend "@ + debug_form(backend_id@) + " is unavailable"@,
        }
    }

    pub fn to_text(&self) -> (text: String)
        ensures
            text@ == self.text(),
    {
        match self {
            ResolveDeviceError::ManagerStopped => "Pronk manager has stopped".to_owned(),
            ResolveDeviceError::InvalidSelection(error) =>
                concat("invalid device selection: ", error.as_str()),
            ResolveDeviceError::NotFound { backend_id, device_id } =>
                concat(named_device(backend_id, device_id).as_str(), " was not found"),
            ResolveDeviceError::StaleSelection { backend_id, device_id } => concat(
                named_device(backend_id, device_id).as_str(),
                " changed since it was selected",
            ),
            ResolveDeviceError::Unavailable { backend_id, device_id, availability } => {
                let mut text = concat(named_device(backend_id, device_id).as_str(), " is ");
                text.append(availability.as_word());
                text
            },
            ResolveDeviceError::BackendUnavailable { backend_id } => {
                let mut text = concat("backend ", quoted(backend_id.as_str()).as_str());
                text.append(" is unavailable");
                text
            },
        }
    }
}

/// Why no output could be listed.
#[derive(Debug, PartialEq, Eq)]
pub struct OutputInventoryProviderError(pub String);

impl OutputInventoryProviderError {
    pub fn new(message: &str) -> (error: Self)
        ensures
            error.0@ == message@,
    {
        OutputInventoryProviderError(message.to_owned())
    }

    pub fn to_text(&self) -> (text: String)
        ensures
            text@ == self.0@,
    {
        self.0.clone()
    }
}

/// Why no output could be reserved.
#[derive(Debug, PartialEq, Eq)]
pub enum OutputReservationError {
    CapacityExhausted,
    DeviceAlreadyClaimed,
    Other(String),
}

/// Why a display could not be reserved.
#[derive(Debug, PartialEq, Eq)]
pub enum ReserveDisplaySlotError {
    ManagerStopped,
    Device(ResolveDeviceError),
    DiscoveryTask(String),
    Discovery(OutputInventoryProviderError),
    Output(OutputReservationError),
}

impl ReserveDisplaySlotError {
    /// The error as one line. `cause` is the text of an output that could not be
    /// reserved.
    pub open spec fn text(self, cause: Seq<char>) -> Seq<char> {
        match self {
            ReserveDisplaySlotError::ManagerStopped => "Pronk manager has stopped"@,
            ReserveDisplaySlotError::Device(error) =>
                "cannot reserve a display for the selected Device: "@ + error.text(),
            ReserveDisplaySlotError::DiscoveryTask(error) =>
                "CastKMS output discovery task failed: "@ + error@,
            ReserveDisplaySlotError::Discovery(error) => "discover CastKMS outputs: "@ + error.0@,
            ReserveDisplaySlotError::Output(_) => "cannot reserve a CastKMS output: "@ + cause,
        }
    }

    pub fn to_text(&self, cause: &str) -> (text: String)
        ensures
            text@ == self.text(cause@),
    {
        match self {
            ReserveDisplaySlotError::ManagerStopped => "Pronk manager has stopped".to_owned(),
            ReserveDisplaySlotError::Device(error) => concat(
                "cannot reserve a display for the selected Device: ",
                error.to_text().as_str(),
            ),
            ReserveDisplaySlotError::DiscoveryTask(error) =>
                concat("CastKMS output discovery task failed: ", error.as_str()),
            ReserveDisplaySlotError::Discovery(error) =>
                concat("discover CastKMS outputs: ", error.0.as_str()),
            ReserveDisplaySlotError::Output(_) =>
                concat("cannot reserve a CastKMS output: ", cause),
        }
    }
}

/// Why a setup did not start.
#[derive(Debug, PartialEq, Eq)]
pub enum StartDisplaySetupError {
    ManagerStopped,
    InvalidSelection(String),
    TooManyOperations,
    IdentityCollision,
    Start(String),
}

impl StartDisplaySetupError {
    /// The error as one line.
    pub open spec fn text(self) -> Seq<char> {
        match self {
            StartDisplaySetupError::ManagerStopped => "Pronk manager has stopped"@,
            StartDisplaySetupError::InvalidSelection(error) =>
                "invalid Device selection: "@ + error@,
            StartDisplaySetupError::TooManyOperations =>
                "the setup-operation retention limit is exhausted"@,
            StartDisplaySetupError::IdentityCollision =>
                "generated a duplicate cast-display identity"@,
            StartDisplaySetupError::Start(error) => "start display setup operation: "@ + error@,
        }
    }

    pub fn to_text(&self) -> (text: String)
        ensures
            text@ == self.text(),
    {
        match self {
            StartDisplaySetupError::ManagerStopped => "Pronk manager has stopped".to_owned(),
            StartDisplaySetupError::InvalidSelection(error) =>
                concat("invalid Device selection: ", error.as_str()),
            StartDisplaySetupError::TooManyOperations =>
                "the setup-operation retention limit is exhausted".to_owned(),
            StartDisplaySetupError::IdentityCollision =>
                "generated a duplicate cast-display identity".to_owned(),
            StartDisplaySetupError::Start(error) =>
                concat("start display setup operation: ", error.as_str()),
        }
    }
}

/// Why a display was not removed.
#[derive(Debug, PartialEq, Eq)]
pub enum RemoveManagedDisplayError {
    ManagerStopped,
    Cleanup(String),
}

impl RemoveManagedDisplayError {
    /// The error as one line.
    pub open spec fn text(self) -> Seq<char> {
        match self {
            RemoveManagedDisplayError::ManagerStopped => "Pronk manager has stopped"@,
            RemoveManagedDisplayError::Cleanup(error) => "remove cast display: "@ + error@,
        }
    }

    pub fn to_text(&self) -> (text: String)
        ensures
            text@ == self.text(),
    {
        match self {
            RemoveManagedDisplayError::ManagerStopped => "Pronk manager has stopped".to_owned(),
            RemoveManagedDisplayError::Cleanup(error) =>
                concat("remove cast display: ", error.as_str()),
        }
    }
}

#[derive(Debug, Clone, Copy, PartialEq, Eq, Structural)]
pub enum ManagerRequestError {
    ManagerStopped,
}

impl ManagerRequestError {
    pub fn to_text(&self) -> (text: String)
        ensures
            text@ == "Pronk manager has stopped"@,
    {
        "Pronk manager has stopped".to_owned()
    }
}

/// Why the manager ended.
#[derive(Debug, PartialEq, Eq)]
pub enum ManagerTaskError {
    EventConsumerStopped,
    Aggregate(String),
}

/// Most backends that can be installed.
pub const MAX_INSTALLED_BACKENDS: usize = 32;

/// Why the manager did not start.
#[derive(Debug, PartialEq, Eq)]
pub enum ManagerStartError {
    LoadPnpDatabase(String),
    TooManyBackends(usize),
    DuplicateBackendId(String),
    StartBackend { backend_id: String, source: String },
}

impl ManagerStartError {
    /// The error as one line.
    pub open spec fn text(self) -> Seq<char> {
        match self {
            ManagerStartError::LoadPnpDatabase(error) =>
                "load the trusted PNP manufacturer database: "@ + error@,
            ManagerStartError::TooManyBackends(count) => "configured "@ + decimal(count as nat)
                + " backends; limit is "@ + decimal(MAX_INSTALLED_BACKENDS as nat),
            ManagerStartError::DuplicateBackendId(backend_id) =>
                "backend ID "@ + debug_form(backend_id@) + " is configured twice"@,
            ManagerStartError::StartBackend { backend_id, source } =>
                "start backend "@ + debug_form(backend_id@) + ": "@ + source@,
        }
    }

    pub fn to_text(&self) -> (text: String)
        ensures
            text@ == self.text(),
    {
        match self {
            ManagerStartError::LoadPnpDatabase(error) =>
                concat("load the trusted PNP manufacturer database: ", error.as_str()),
            ManagerStartError::TooManyBackends(count) => {
                let mut text = "configured ".to_owned();
                push_decimal(&mut text, *count as u64);
                text.append(" backends; limit is ");
                push_decimal(&mut text, MAX_INSTALLED_BACKENDS as u64);
                text
            },
            ManagerStartError::DuplicateBackendId(backend_id) => {
                let mut text = concat("backend ID ", quoted(backend_id.as_str()).as_str());
                text.append(" is configured twice");
                text
            },
            ManagerStartError::StartBackend { backend_id, source } => {
                let mut text = concat("start backend ", quoted(backend_id.as_str()).as_str());
                text.append(": ");
                text.append(source.as_str());
                text
            },
        }
    }
}

/// The ID at `index` is the first that occurs a second time.
pub open spec fn first_repeated(ids: Seq<Seq<char>>, index: int) -> bool {
    &&& 0 <= index < ids.len()
    &&& ids.take(index).contains(ids[index])
    &&& ids.take(index).no_duplicates()
}

/// Whether the configured backends can be run.
pub open spec fn backends_checked(
    backend_ids: Seq<String>,
    result: Result<(), ManagerStartError>,
) -> bool {
    &&& backend_ids.len() > MAX_INSTALLED_BACKENDS <==> (result matches Err(
        ManagerStartError::TooManyBackends(_),
    ))
    &&& match result {
        Ok(_) => texts_view(backend_ids).no_duplicates(),
        Err(ManagerStartError::TooManyBackends(count)) => count == backend_ids.len(),
        Err(ManagerStartError::DuplicateBackendId(id)) => exists|index: int|
            first_repeated(texts_view(backend_ids), index) && #[trigger] texts_view(
                backend_ids,
            )[index] == id@,
        Err(_) => false,
    }
}

/// Check the IDs of the configured backends: not too many, and each once.
pub fn validate_backends(backend_ids: &Vec<String>) -> (result: Result<(), ManagerStartError>)
    ensures
        backends_checked(backend_ids@, result),
{
    let ghost ids = texts_view(backend_ids@);
    if backend_ids.len() > MAX_INSTALLED_BACKENDS {
        return Err(ManagerStartError::TooManyBackends(backend_ids.len()));
    }
    let mut index: usize = 0;
    while index < backend_ids.len()
        invariant
            index <= backend_ids@.len(),
            ids == texts_view(backend_ids@),
            ids.take(index as int).no_duplicates(),
            backend_ids@.len() <= MAX_INSTALLED_BACKENDS,
        decreases backend_ids@.len() - index,
    {
        let mut earlier: usize = 0;
        while earlier < index
            invariant
                earlier <= index,
                index < backend_ids@.len(),
                ids == texts_view(backend_ids@),
                ids.take(index as int).no_duplicates(),
                backend_ids@.len() <= MAX_INSTALLED_BACKENDS,
                forall|i: int| 0 <= i < earlier ==> #[trigger] ids[i] != ids[index as int],
            decreases index - earlier,
        {
            if same_text(backend_ids[earlier].as_str(), backend_ids[index].as_str()) {
                proof {
                    assert(ids.take(index as int)[earlier as int] == ids[index as int]);
                    assert(first_repeated(ids, index as int));
                    assert(ids[index as int] == backend_ids@[index as int]@);
                }
                return Err(ManagerStartError::DuplicateBackendId(backend_ids[index].clone()));
            }
            proof {
                assert(ids[earlier as int] == backend_ids@[earlier as int]@);
                assert(ids[index as int] == backend_ids@[index as int]@);
            }
            earlier += 1;
        }
        proof {
            let longer = ids.take(index + 1);
            assert forall|i: int, j: int|
                0 <= i < longer.len() && 0 <= j < longer.len() && i != j implies longer[i]
                != longer[j] by {
                if i < index && j < index {
                    assert(ids.take(index as int)[i] == longer[i]);
                    assert(ids.take(index as int)[j] == longer[j]);
                } else if i == index {
                    assert(ids[j] != ids[index as int]);
                } else {
                    assert(ids[i] != ids[index as int]);
                }
            }
        }
        index += 1;
    }
    proof {
        assert(ids.take(index as int) =~= ids);
    }
    Ok(())
}

/// How a device is selected for another session of its display.
pub open spec fn selects_again(
    backend_id: Seq<char>,
    device_id: Seq<char>,
    device: DeviceInfo,
    result: Result<DeviceSelection, ResolveDeviceError>,
) -> bool {
    if device@.backend_id == backend_id && device@.device_id == device_id {
        result is Ok && result->Ok_0@ == selection_of(device@)
    } else {
        result matches Err(ResolveDeviceError::InvalidSelection(text)) && text@
            == "recovery Device differs from the reserved display target"@
    }
}

/// The selection with which a display looks for its own device again; no other
/// device is looked for.
pub fn recovery_selection(backend_id: &str, device_id: &str, device: &DeviceInfo) -> (result: Result<
    DeviceSelection,
    ResolveDeviceError,
>)
    ensures
        selects_again(backend_id@, device_id@, *device, result),
{
    if !same_text(device.backend_id.as_str(), backend_id) || !same_text(
        device.device_id.as_str(),
        device_id,
    ) {
        return Err(
            ResolveDeviceError::InvalidSelection(
                "recovery Device differs from the reserved display target".to_owned(),
            ),
        );
    }
    Ok(DeviceSelection::from_device(device))
}

/// A session to make at a backend, for a device as it was resolved.
#[derive(Debug, PartialEq, Eq)]
pub struct BackendSessionRequest {
    pub session_id: String,
    pub device_id: String,
    pub connection_generation: u64,
    pub discovery_generation: u64,
    pub session_generation: u64,
    pub requested_features: u64,
}

/// What a backend is asked for a session with a device.
pub open spec fn session_request(
    device: DeviceInfo,
    session_id: String,
    session_generation: u64,
    requested_features: u64,
) -> BackendSessionRequest {
    BackendSessionRequest {
        session_id,
        device_id: device.device_id,
        connection_generation: device.connection_generation,
        discovery_generation: device.discovery_generation,
        session_generation,
        requested_features,
    }
}

/// The request for a session of a resolved device. Its generations let the
/// backend refuse a device that has changed meanwhile.
pub fn create_session(
    device: DeviceInfo,
    session_id: String,
    session_generation: u64,
    requested_features: u64,
) -> (request: BackendSessionRequest)
    ensures
        request == session_request(device, session_id, session_generation, requested_features),
{
    BackendSessionRequest {
        session_id,
        device_id: device.device_id,
        connection_generation: device.connection_generation,
        discovery_generation: device.discovery_generation,
        session_generation,
        requested_features,
    }
}

/// Why the manager gave no report of its end.
#[derive(Debug, PartialEq, Eq)]
pub enum ManagerActorError {
    Stopped,
    ShutdownTimeout,
    Task(String),
    Failed(ManagerTaskError),
}

impl ManagerTaskError {
    /// The error as one line.
    pub open spec fn text(self) -> Seq<char> {
        match self {
            ManagerTaskError::EventConsumerStopped => "inventory signal consumer stopped"@,
            ManagerTaskError::Aggregate(error) => "aggregate inventory failed: "@ + error@,
        }
    }

    pub fn to_text(&self) -> (text: String)
        ensures
            text@ == self.text(),
    {
        match self {
            ManagerTaskError::EventConsumerStopped => {
                "inventory signal consumer stopped".to_owned()
            },
            ManagerTaskError::Aggregate(error) => concat(
                "aggregate inventory failed: ",
                error.as_str(),
            ),
        }
    }
}

impl ManagerActorError {
    /// The error as one line.
    pub open spec fn text(self) -> Seq<char> {
        match self {
            ManagerActorError::Stopped => "Pronk manager has stopped"@,
            ManagerActorError::ShutdownTimeout => "Pronk manager shutdown timed out"@,
            ManagerActorError::Task(error) => "Pronk manager task failed: "@ + error@,
            ManagerActorError::Failed(error) => "Pronk manager failed: "@ + error.text(),
        }
    }

    pub fn to_text(&self) -> (text: String)
        ensures
            text@ == self.text(),
    {
        match self {
            ManagerActorError::Stopped => "Pronk manager has stopped".to_owned(),
            ManagerActorError::ShutdownTimeout => "Pronk manager shutdown timed out".to_owned(),
            ManagerActorError::Task(error) => concat(
                "Pronk manager task failed: ",
                error.as_str(),
            ),
            ManagerActorError::Failed(error) => concat(
                "Pronk manager failed: ",
                error.to_text().as_str(),
            ),
        }
    }
}

/// What came of a wait that has a deadline.
#[derive(Debug, Clone, Copy, PartialEq, Eq, Structural)]
pub enum WaitOutcome {
    Done,
    Closed,
    TimedOut,
}

/// Go on after the manager was asked to end, or has answered that it did.
pub fn shutdown(outcome: WaitOutcome) -> (result: Result<(), ManagerActorError>)
    ensures
        match outcome {
            WaitOutcome::Done => result is Ok,
            WaitOutcome::Closed => result == Err::<(), _>(ManagerActorError::Stopped),
            WaitOutcome::TimedOut => result == Err::<(), _>(ManagerActorError::ShutdownTimeout),
        },
{
    match outcome {
        WaitOutcome::Done => Ok(()),
        WaitOutcome::Closed => Err(ManagerActorError::Stopped),
        WaitOutcome::TimedOut => Err(ManagerActorError::ShutdownTimeout),
    }
}

/// What came of waiting for the manager itself.
#[derive(Debug, PartialEq, Eq)]
pub enum TaskOutcome {
    /// It was waited for before.
    Missing,
    Ended(Result<(), ManagerTaskError>),
    Crashed(String),
    TimedOut,
}

/// What is told of the end of the manager's task.
pub open spec fn tells_end(
    outcome: TaskOutcome,
    result: Result<(), ManagerActorError>,
) -> bool {
    match outcome {
        TaskOutcome::Missing => result == Err::<(), _>(ManagerActorError::Stopped),
        TaskOutcome::Ended(Ok(_)) => result is Ok,
        TaskOutcome::Ended(Err(error)) => result == Err::<(), _>(
            ManagerActorError::Failed(error),
        ),
        TaskOutcome::Crashed(text) => result == Err::<(), _>(ManagerActorError::Task(text)),
        TaskOutcome::TimedOut => result == Err::<(), _>(ManagerActorError::ShutdownTimeout),
    }
}

/// How the manager ended.
pub fn join_task_until(outcome: TaskOutcome) -> (result: Result<(), ManagerActorError>)
    ensures
        tells_end(outcome, result),
{
    match outcome {
        TaskOutcome::Missing => Err(ManagerActorError::Stopped),
        TaskOutcome::Ended(Ok(())) => Ok(()),
        TaskOutcome::Ended(Err(error)) => Err(ManagerActorError::Failed(error)),
        TaskOutcome::Crashed(text) => Err(ManagerActorError::Task(text)),
        TaskOutcome::TimedOut => Err(ManagerActorError::ShutdownTimeout),
    }
}

/// The answer to a request for an output, once the outputs were listed: the
/// list, or why there is none.
pub fn reserve_display_slot<T>(
    discovered: Result<Result<T, OutputInventoryProviderError>, String>,
) -> (result: Result<T, ReserveDisplaySlotError>)
    ensures
        result == match discovered {
            Err(text) => Err::<T, _>(ReserveDisplaySlotError::DiscoveryTask(text)),
            Ok(Err(error)) => Err(ReserveDisplaySlotError::Discovery(error)),
            Ok(Ok(outputs)) => Ok(outputs),
        },
{
    match discovered {
        Err(text) => Err(ReserveDisplaySlotError::DiscoveryTask(text)),
        Ok(Err(error)) => Err(ReserveDisplaySlotError::Discovery(error)),
        Ok(Ok(outputs)) => Ok(outputs),
    }
}

/// At most 32 backends run, and none twice; the first that comes again is named.
pub proof fn backends_run_once(ids: Seq<String>, result: Result<(), ManagerStartError>)
    requires
        backends_checked(ids, result),
    ensures
        result is Ok <==> ids.len() <= 32 && forall|i: int, j: int|
            0 <= i < j < ids.len() ==> (#[trigger] ids[i])@ != (#[trigger] ids[j])@,
        ids.len() > 32 ==> result->Err_0 == ManagerStartError::TooManyBackends(ids.len() as usize),
        result is Err && ids.len() <= 32 ==> result->Err_0 is DuplicateBackendId && exists|
            i: int,
            j: int,
        |
            0 <= i < j < ids.len() && (#[trigger] ids[i])@ == (#[trigger] ids[j])@ && ids[j]@
                == result->Err_0->DuplicateBackendId_0@,
{
    let views = texts_view(ids);
    if result is Ok {
        assert forall|i: int, j: int| 0 <= i < j < ids.len() implies (#[trigger] ids[i])@ != (
        #[trigger] ids[j])@ by {
            assert(views[i] != views[j]);
        }
    } else if ids.len() <= 32 {
        let id = result->Err_0->DuplicateBackendId_0;
        let index = choose|index: int|
            first_repeated(views, index) && #[trigger] views[index] == id@;
        let at = choose|at: int| 0 <= at < views.take(index).len() && views.take(index)[at]
            == views[index];
        assert(ids[at]@ == ids[index]@);
    }
}

/// Another session is for the device of the display alone, in the record that it has now.
pub proof fn sessions_stay_with_their_device(
    backend_id: Seq<char>,
    device_id: Seq<char>,
    device: DeviceInfo,
    result: Result<DeviceSelection, ResolveDeviceError>,
)
    requires
        selects_again(backend_id, device_id, device, result),
    ensures
        result is Ok <==> device.backend_id@ == backend_id && device.device_id@ == device_id,
        result matches Ok(selection) ==> {
            &&& selection.backend_id@ == backend_id
            &&& selection.device_id@ == device_id
            &&& selection.connection_generation == device.connection_generation
            &&& selection.discovery_generation == device.discovery_generation
            &&& selection.device_revision == device.device_revision
            &&& selection.defect is None
        },
        result is Err ==> result->Err_0 is InvalidSelection,
{
}

/// A session is asked for with the device and the generations of its record, under the
/// identity and the generation that it was given.
pub proof fn sessions_are_asked_for_by_record(
    device: DeviceInfo,
    session_id: String,
    session_generation: u64,
    requested_features: u64,
)
    ensures
        ({
            let request = session_request(
                device,
                session_id,
                session_generation,
                requested_features,
            );
            &&& request.session_id == session_id
            &&& request.device_id == device.device_id
            &&& request.connection_generation == device.connection_generation
            &&& request.discovery_generation == device.discovery_generation
            &&& request.session_generation == session_generation
            &&& request.requested_features == requested_features
        }),
{
}

/// The end of the manager is told as it was: a failure with its reason, a crash, or that
/// it took too long.
pub proof fn ends_are_told_as_they_were(outcome: TaskOutcome, result: Result<(), ManagerActorError>)
    requires
        tells_end(outcome, result),
    ensures
        result is Ok <==> outcome is Ended && outcome->Ended_0 is Ok,
        result is Err && result->Err_0 is Stopped <==> outcome is Missing,
        result is Err && result->Err_0 is ShutdownTimeout <==> outcome is TimedOut,
        outcome is Crashed ==> result->Err_0 == ManagerActorError::Task(outcome->Crashed_0),
        outcome is Ended && outcome->Ended_0 is Err ==> result->Err_0 == ManagerActorError::Failed(
            outcome->Ended_0->Err_0,
        ),
{
}

/// An event shows its revision and all of its device.
pub proof fn events_show_their_device(event: InventoryEvent)
    ensures
        event is DeviceAdded <==> event@ is DeviceAdded,
        event is DeviceChanged <==> event@ is DeviceChanged,
        event is DeviceRemoved <==> event@ is DeviceRemoved,
        event matches InventoryEvent::DeviceAdded { inventory_revision, device }
            ==> event@.revision() == inventory_revision && event@->DeviceAdded_device == device@
            && event@.device_id() == device.device_id@,
        event matches InventoryEvent::DeviceChanged { inventory_revision, device }
            ==> event@.revision() == inventory_revision && event@->DeviceChanged_device == device@
            && event@.device_id() == device.device_id@,
        event matches InventoryEvent::DeviceRemoved { inventory_revision, backend_id, device_id }
            ==> event@.revision() == inventory_revision && event@->DeviceRemoved_backend_id
            == backend_id@ && event@.device_id() == device_id@,
{
}

/// The text of an error names the device, by its backend and its own name, and says what
/// is wrong with it.
pub proof fn refusals_name_the_device(error: ResolveDeviceError)
    ensures
        error matches ResolveDeviceError::NotFound { backend_id, device_id } ==> device_name(
            backend_id@,
            device_id@,
        ).is_prefix_of(error.text()),
        error matches ResolveDeviceError::StaleSelection { backend_id, device_id } ==> device_name(
            backend_id@,
            device_id@,
        ).is_prefix_of(error.text()),
        error matches ResolveDeviceError::Unavailable { backend_id, device_id, availability } ==> {
            let text = error.text();
            &&& device_name(backend_id@, device_id@).is_prefix_of(text)
            &&& text.skip(text.len() - availability.word().len()) == availability.word()
        },
        error matches ResolveDeviceError::InvalidSelection(why) ==> {
            let text = error.text();
            text.skip(text.len() - why@.len()) == why@
        },
{
    let text = error.text();
    match error {
        ResolveDeviceError::Unavailable { backend_id, device_id, availability } => {
            assert(text.skip(text.len() - availability.word().len()) =~= availability.word());
        },
        ResolveDeviceError::InvalidSelection(why) => {
            assert(text.skip(text.len() - why@.len()) =~= why@);
        },
        _ => {},
    }
}

/// A device is named by its backend first, then by its own name.
pub proof fn device_names_hold_both_names(backend_id: Seq<char>, device_id: Seq<char>)
    ensures
        ({
            let name = device_name(backend_id, device_id);
            let first = debug_form(backend_id);
            let second = debug_form(device_id);
            &&& name.len() == 8 + first.len() + second.len()
            &&& name.subrange(7, 7 + first.len() as int) == first
            &&& name.skip(name.len() - second.len()) == second
        }),
{
    reveal_strlit("device ");
    reveal_strlit("/");
    let name = device_name(backend_id, device_id);
    let first = debug_form(backend_id);
    let second = debug_form(device_id);
    assert(name.subrange(7, 7 + first.len() as int) =~= first);
    assert(name.skip(name.len() - second.len()) =~= second);
}

/// The texts of the manager's errors end in their causes.
pub proof fn manager_texts_end_in_the_cause(
    reserve: ReserveDisplaySlotError,
    cause: Seq<char>,
    start: StartDisplaySetupError,
    remove: RemoveManagedDisplayError,
    begin: ManagerStartError,
    end: ManagerActorError,
)
    ensures
        ({
            let text = reserve.text(cause);
            &&& reserve matches ReserveDisplaySlotError::Device(error) ==> text.skip(
                text.len() - error.text().len(),
            ) == error.text()
            &&& reserve matches ReserveDisplaySlotError::DiscoveryTask(error) ==> text.skip(
                text.len() - error@.len(),
            ) == error@
            &&& reserve matches ReserveDisplaySlotError::Discovery(error) ==> text.skip(
                text.len() - error.0@.len(),
            ) == error.0@
            &&& reserve is Output ==> text.skip(text.len() - cause.len()) == cause
        }),
        start matches StartDisplaySetupError::InvalidSelection(error) ==> start.text().skip(
            start.text().len() - error@.len(),
        ) == error@,
        start matches StartDisplaySetupError::Start(error) ==> start.text().skip(
            start.text().len() - error@.len(),
        ) == error@,
        remove matches RemoveManagedDisplayError::Cleanup(error) ==> remove.text().skip(
            remove.text().len() - error@.len(),
        ) == error@,
        begin matches ManagerStartError::LoadPnpDatabase(error) ==> begin.text().skip(
            begin.text().len() - error@.len(),
        ) == error@,
        begin matches ManagerStartError::StartBackend { backend_id, source } ==> begin.text().skip(
            begin.text().len() - source@.len(),
        ) == source@ && begin.text().subrange(14, 14 + debug_form(backend_id@).len() as int)
            == debug_form(backend_id@),
        begin matches ManagerStartError::DuplicateBackendId(backend_id) ==> begin.text().subrange(
            11,
            11 + debug_form(backend_id@).len() as int,
        ) == debug_form(backend_id@),
        begin matches ManagerStartError::TooManyBackends(count) ==> begin.text().subrange(
            11,
            11 + decimal(count as nat).len() as int,
        ) == decimal(count as nat),
        end matches ManagerActorError::Task(error) ==> end.text().skip(
            end.text().len() - error@.len(),
        ) == error@,
        end matches ManagerActorError::Failed(error) ==> end.text().skip(
            end.text().len() - error.text().len(),
        ) == error.text(),
{
    reveal_strlit("start backend ");
    reveal_strlit("backend ID ");
    reveal_strlit("configured ");
    let text = reserve.text(cause);
    let inner = match reserve {
        ReserveDisplaySlotError::Device(error) => error.text(),
        ReserveDisplaySlotError::DiscoveryTask(error) => error@,
        ReserveDisplaySlotError::Discovery(error) => error.0@,
        ReserveDisplaySlotError::Output(_) => cause,
        ReserveDisplaySlotError::ManagerStopped => Seq::empty(),
    };
    assert(text.skip(text.len() - inner.len()) =~= inner);
    match start {
        StartDisplaySetupError::InvalidSelection(error) => {
            assert(start.text().skip(start.text().len() - error@.len()) =~= error@);
        },
        StartDisplaySetupError::Start(error) => {
            assert(start.text().skip(start.text().len() - error@.len()) =~= error@);
        },
        _ => {},
    }
    match remove {
        RemoveManagedDisplayError::Cleanup(error) => {
            assert(remove.text().skip(remove.text().len() - error@.len()) =~= error@);
        },
        _ => {},
    }
    match begin {
        ManagerStartError::LoadPnpDatabase(error) => {
            assert(begin.text().skip(begin.text().len() - error@.len()) =~= error@);
        },
        ManagerStartError::StartBackend { backend_id, source } => {
            assert(begin.text().skip(begin.text().len() - source@.len()) =~= source@);
            assert(begin.text().subrange(14, 14 + debug_form(backend_id@).len() as int)
                =~= debug_form(backend_id@));
        },
        ManagerStartError::DuplicateBackendId(backend_id) => {
            assert(begin.text().subrange(11, 11 + debug_form(backend_id@).len() as int)
                =~= debug_form(backend_id@));
        },
        ManagerStartError::TooManyBackends(count) => {
            assert(begin.text().subrange(11, 11 + decimal(count as nat).len() as int)
                =~= decimal(count as nat));
        },
    }
    match end {
        ManagerActorError::Task(error) => {
            assert(end.text().skip(end.text().len() - error@.len()) =~= error@);
        },
        ManagerActorError::Failed(error) => {
            assert(end.text().skip(end.text().len() - error.text().len()) =~= error.text());
        },
        _ => {},
    }
}

/// The text of a refused selection begins with the words of its kind.
pub proof fn device_refusals_say_their_kind(value: ResolveDeviceError)
    ensures
        value is ManagerStopped ==> "Pronk manager has stopped"@.is_prefix_of(value.text()),
        value is InvalidSelection ==> "invalid device selection: "@.is_prefix_of(value.text()),
        value is BackendUnavailable ==> "backend "@.is_prefix_of(value.text()),
{
    let text = value.text();
    if value is ManagerStopped {
        assert("Pronk manager has stopped"@ =~= text.subrange(
            0,
            "Pronk manager has stopped"@.len() as int,
        ));
    }
    if value is InvalidSelection {
        assert("invalid device selection: "@ =~= text.subrange(
            0,
            "invalid device selection: "@.len() as int,
        ));
    }
    if value is BackendUnavailable {
        assert("backend "@ =~= text.subrange(0, "backend "@.len() as int));
    }
}

/// The text of a failed reservation begins with the words of its kind.
pub proof fn reservation_failures_say_their_kind(value: ReserveDisplaySlotError, cause: Seq<char>)
    ensures
        value is ManagerStopped ==> "Pronk manager has stopped"@.is_prefix_of(value.text(cause)),
        value is Device ==> "cannot reserve a display for the selected Device: "@.is_prefix_of(
            value.text(cause),
        ),
        value is DiscoveryTask ==> "CastKMS output discovery task failed: "@.is_prefix_of(
            value.text(cause),
        ),
        value is Discovery ==> "discover CastKMS outputs: "@.is_prefix_of(value.text(cause)),
        value is Output ==> "cannot reserve a CastKMS output: "@.is_prefix_of(value.text(cause)),
{
    let text = value.text(cause);
    if value is ManagerStopped {
        assert("Pronk manager has stopped"@ =~= text.subrange(
            0,
            "Pronk manager has stopped"@.len() as int,
        ));
    }
    if value is Device {
        assert("cannot reserve a display for the selected Device: "@ =~= text.subrange(
            0,
            "cannot reserve a display for the selected Device: "@.len() as int,
        ));
    }
    if value is DiscoveryTask {
        assert("CastKMS output discovery task failed: "@ =~= text.subrange(
            0,
            "CastKMS output discovery task failed: "@.len() as int,
        ));
    }
    if value is Discovery {
        assert("discover CastKMS outputs: "@ =~= text.subrange(
            0,
            "discover CastKMS outputs: "@.len() as int,
        ));
    }
    if value is Output {
        assert("cannot reserve a CastKMS output: "@ =~= text.subrange(
            0,
            "cannot reserve a CastKMS output: "@.len() as int,
        ));
    }
}

/// The text of a refused setup begins with the words of its kind.
pub proof fn refused_setups_say_their_kind(value: StartDisplaySetupError)
    ensures
        value is ManagerStopped ==> "Pronk manager has stopped"@.is_prefix_of(value.text()),
        value is InvalidSelection ==> "invalid Device selection: "@.is_prefix_of(value.text()),
        value is TooManyOperations ==> "the setup-operation retention limit is exhausted"@.is_prefix_of(value.text()),
        value is IdentityCollision ==> "generated a duplicate cast-display identity"@.is_prefix_of(
            value.text(),
        ),
        value is Start ==> "start display setup operation: "@.is_prefix_of(value.text()),
{
    let text = value.text();
    if value is ManagerStopped {
        assert("Pronk manager has stopped"@ =~= text.subrange(
            0,
            "Pronk manager has stopped"@.len() as int,
        ));
    }
    if value is InvalidSelection {
        assert("invalid Device selection: "@ =~= text.subrange(
            0,
            "invalid Device selection: "@.len() as int,
        ));
    }
    if value is TooManyOperations {
        assert("the setup-operation retention limit is exhausted"@ =~= text.subrange(
            0,
            "the setup-operation retention limit is exhausted"@.len() as int,
        ));
    }
    if value is IdentityCollision {
        assert("generated a duplicate cast-display identity"@ =~= text.subrange(
            0,
            "generated a duplicate cast-display identity"@.len() as int,
        ));
    }
    if value is Start {
        assert("start display setup operation: "@ =~= text.subrange(
            0,
            "start display setup operation: "@.len() as int,
        ));
    }
}

/// The text of a failed removal begins with the words of its kind.
pub proof fn failed_removals_say_their_kind(value: RemoveManagedDisplayError)
    ensures
        value is ManagerStopped ==> "Pronk manager has stopped"@.is_prefix_of(value.text()),
        value is Cleanup ==> "remove cast display: "@.is_prefix_of(value.text()),
{
    let text = value.text();
    if value is ManagerStopped {
        assert("Pronk manager has stopped"@ =~= text.subrange(
            0,
            "Pronk manager has stopped"@.len() as int,
        ));
    }
    if value is Cleanup {
        assert("remove cast display: "@ =~= text.subrange(
            0,
            "remove cast display: "@.len() as int,
        ));
    }
}

/// The text of a failed start begins with the words of its kind.
pub proof fn failed_starts_say_their_kind(value: ManagerStartError)
    ensures
        value is LoadPnpDatabase ==> "load the trusted PNP manufacturer database: "@.is_prefix_of(
            value.text(),
        ),
        value is TooManyBackends ==> "configured "@.is_prefix_of(value.text()),
        value is DuplicateBackendId ==> "backend ID "@.is_prefix_of(value.text()),
        value is StartBackend ==> "start backend "@.is_prefix_of(value.text()),
{
    let text = value.text();
    if value is LoadPnpDatabase {
        assert("load the trusted PNP manufacturer database: "@ =~= text.subrange(
            0,
            "load the trusted PNP manufacturer database: "@.len() as int,
        ));
    }
    if value is TooManyBackends {
        assert("configured "@ =~= text.subrange(0, "configured "@.len() as int));
    }
    if value is DuplicateBackendId {
        assert("backend ID "@ =~= text.subrange(0, "backend ID "@.len() as int));
    }
    if value is StartBackend {
        assert("start backend "@ =~= text.subrange(0, "start backend "@.len() as int));
    }
}

/// The text of a failed task begins with the words of its kind.
pub proof fn failed_tasks_say_their_kind(value: ManagerTaskError)
    ensures
        value is EventConsumerStopped ==> "inventory signal consumer stopped"@.is_prefix_of(
            value.text(),
        ),
        value is Aggregate ==> "aggregate inventory failed: "@.is_prefix_of(value.text()),
{
    let text = value.text();
    if value is EventConsumerStopped {
        assert("inventory signal consumer stopped"@ =~= text.subrange(
            0,
            "inventory signal consumer stopped"@.len() as int,
        ));
    }
    if value is Aggregate {
        assert("aggregate inventory failed: "@ =~= text.subrange(
            0,
            "aggregate inventory failed: "@.len() as int,
        ));
    }
}

/// The text of a manager that ended begins with the words of its kind.
pub proof fn ended_managers_say_their_kind(value: ManagerActorError)
    ensures
        value is Stopped ==> "Pronk manager has stopped"@.is_prefix_of(value.text()),
        value is ShutdownTimeout ==> "Pronk manager shutdown timed out"@.is_prefix_of(value.text()),
        value is Task ==> "Pronk manager task failed: "@.is_prefix_of(value.text()),
        value is Failed ==> "Pronk manager failed: "@.is_prefix_of(value.text()),
{
    let text = value.text();
    if value is Stopped {
        assert("Pronk manager has stopped"@ =~= text.subrange(
            0,
            "Pronk manager has stopped"@.len() as int,
        ));
    }
    if value is ShutdownTimeout {
        assert("Pronk manager shutdown timed out"@ =~= text.subrange(
            0,
            "Pronk manager shutdown timed out"@.len() as int,
        ));
    }
    if value is Task {
        assert("Pronk manager task failed: "@ =~= text.subrange(
            0,
            "Pronk manager task failed: "@.len() as int,
        ));
    }
    if value is Failed {
        assert("Pronk manager failed: "@ =~= text.subrange(
            0,
            "Pronk manager failed: "@.len() as int,
        ));
    }
}

} // verus!
