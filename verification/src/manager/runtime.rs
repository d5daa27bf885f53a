//! The manager's reactions to commands, backends and displays.

use crate::display::{
    segment_text, AddedCastDisplay, CastDisplayId, DisplaySetupStage,
};
use crate::display_state::{larger, next};
use crate::manager::display_lifecycle::{
    claimed_by, one_claim_each, records_wf, segments_of, setup_answer, setup_joined,
    setup_outcome, target_of, tells, JoinOutcome, JoinView, ManagedDisplays, PhaseView, RecordView, RemovalRequest,
    SetupJoin, StartDecision, MAX_RETAINED_SETUP_OPERATIONS,
};
use crate::manager::inventory::{
    all_devices, applied, backend_ids, backend_lost, backends_lost, configured, configured_device_update,
    configured_update, event_fits, reachable_count, AggregateError, AggregateErrorView, AggregateInventory,
    ApplySupervisorOutcome, InventoryView, OutcomeView,
};
use crate::manager::{
    events_view, InventoryEvent, InventoryEventView, ManagerTaskError, OutputReservationError,
    RemoveManagedDisplayError, ReserveDisplaySlotError, ResolveDeviceError, StartDisplaySetupError,
};
use crate::order::same_text;
use crate::ordered::sorted_keys;
use crate::protocol::{
    devices_view, selection_of, BackendSupervisorEvent, DeviceAvailability, DeviceInfo,
    DeviceSelection, DeviceSnapshot, DeviceView,
};
use crate::text::texts_view;
use vstd::prelude::*;

verus! {

/// Everything that the manager keeps.
#[derive(Debug)]
pub struct ManagerRuntimeState {
    pub inventory: AggregateInventory,
    pub displays: ManagedDisplays,
    /// The backends that have a worker.
    pub workers: Vec<String>,
}

/// The contents of a [`ManagerRuntimeState`].
pub struct ManagerView {
    pub inventory: InventoryView,
    pub displays: Map<Seq<char>, RecordView>,
    pub workers: Seq<Seq<char>>,
}

impl View for ManagerRuntimeState {
    type V = ManagerView;

    open spec fn view(&self) -> ManagerView {
        ManagerView {
            inventory: self.inventory@,
            displays: self.displays@,
            workers: texts_view(self.workers@),
        }
    }
}

impl ManagerView {
    pub open spec fn wf(self) -> bool {
        self.inventory.wf() && records_wf(self.displays)
    }
}

/// The outcome of resolving a selection: the device, or why there is none.
pub open spec fn resolution(manager: ManagerView, selection: DeviceSelection) -> Result<
    DeviceView,
    ResolveDeviceError,
> {
    match selection.defect {
        Some(defect) => Err(ResolveDeviceError::InvalidSelection(defect)),
        None => match manager.inventory.device(selection.backend_id@, selection.device_id@) {
            None => Err(
                ResolveDeviceError::NotFound {
                    backend_id: selection.backend_id,
                    device_id: selection.device_id,
                },
            ),
            Some(device) => if selection@ != selection_of(device) {
                Err(
                    ResolveDeviceError::StaleSelection {
                        backend_id: selection.backend_id,
                        device_id: selection.device_id,
                    },
                )
            } else if device.availability != DeviceAvailability::Available {
                Err(
                    ResolveDeviceError::Unavailable {
                        backend_id: selection.backend_id,
                        device_id: selection.device_id,
                        availability: device.availability,
                    },
                )
            } else {
                Ok(device)
            },
        },
    }
}

/// The result is the resolution of the selection at a backend with a worker.
pub open spec fn resolves_live(
    manager: ManagerView,
    selection: DeviceSelection,
    result: Result<DeviceInfo, ResolveDeviceError>,
) -> bool {
    match resolution(manager, selection) {
        Err(error) => result == Err::<DeviceInfo, _>(error),
        Ok(device) => if manager.workers.contains(device.backend_id) {
            result is Ok && result->Ok_0@ == device
        } else {
            result matches Err(ResolveDeviceError::BackendUnavailable { backend_id })
                && backend_id@ == device.backend_id
        },
    }
}

/// What the manager is asked.
#[derive(Debug)]
pub enum ManagerCommand {
    ListDevices,
    ListDisplays,
    GetDisplay { display_id: CastDisplayId },
    ResolveDevice { selection: DeviceSelection },
    ReserveDisplaySlot { selection: DeviceSelection },
    StartDisplaySetup { selection: DeviceSelection },
    GetDisplaySetupOperation { display_id: CastDisplayId },
    CancelDisplaySetup { display_id: CastDisplayId, stage: DisplaySetupStage },
    ForgetDisplaySetupOperation { display_id: CastDisplayId, stage: DisplaySetupStage },
    RemoveDisplay { display_id: CastDisplayId, waiter: u64 },
}

/// What the manager answers.
#[derive(Debug)]
pub enum ManagerReply {
    Devices(DeviceSnapshot),
    /// The displays that are there, in the order of their IDs.
    Displays(Vec<CastDisplayId>),
    /// Whether the display is there.
    Display(bool),
    Resolved(Result<DeviceInfo, ResolveDeviceError>),
    /// The device to reserve an output for.
    Reserve(Result<DeviceInfo, ReserveDisplaySlotError>),
    Start(Result<StartDecision, StartDisplaySetupError>),
    /// Whether the operation is known.
    Operation(bool),
    /// Whether the setup is to be cancelled.
    Cancel(bool),
    /// Whether the operation was forgotten.
    Forgotten(bool),
    Removal(RemovalRequest),
    /// Nobody can ask any more.
    Stop,
}

/// The displays after a command.
pub open spec fn commanded(
    displays: Map<Seq<char>, RecordView>,
    command: Option<ManagerCommand>,
) -> Map<Seq<char>, RecordView> {
    match command {
        Some(ManagerCommand::ForgetDisplaySetupOperation { display_id, stage }) => {
            let key = segment_text(display_id@);
            if displays.dom().contains(key) && stage.terminal() && displays[key].phase is Terminal {
                displays.remove(key)
            } else {
                displays
            }
        },
        Some(ManagerCommand::RemoveDisplay { display_id, waiter }) => {
            let key = segment_text(display_id@);
            if displays.dom().contains(key) {
                displays.insert(
                    key,
                    RecordView {
                        phase: displays[key].phase.after_removal_request(waiter),
                        ..displays[key]
                    },
                )
            } else {
                displays
            }
        },
        _ => displays,
    }
}

/// The reply is the one that the command is due.
pub open spec fn answers(
    manager: ManagerRuntimeState,
    command: Option<ManagerCommand>,
    reply: ManagerReply,
) -> bool {
    let displays = manager@.displays;
    match command {
        None => reply is Stop,
        Some(ManagerCommand::ListDevices) => reply matches ManagerReply::Devices(snapshot)
            && snapshot.inventory_revision == manager@.inventory.revision && devices_view(
            snapshot.devices@,
        ) == all_devices(manager@.inventory.backends),
        Some(ManagerCommand::ListDisplays) => reply matches ManagerReply::Displays(active)
            && sorted_keys(segments_of(active@)) && forall|key: Seq<char>| #[trigger]
            segments_of(active@).contains(key) <==> displays.dom().contains(key)
                && displays[key].phase is Active,
        Some(ManagerCommand::GetDisplay { display_id }) => reply matches ManagerReply::Display(
            active,
        ) && active == (displays.dom().contains(segment_text(display_id@))
            && displays[segment_text(display_id@)].phase is Active),
        Some(ManagerCommand::ResolveDevice { selection }) => reply matches ManagerReply::Resolved(
            result,
        ) && resolves_live(manager@, selection, result),
        Some(ManagerCommand::ReserveDisplaySlot { selection }) =>
            reply matches ManagerReply::Reserve(result) && match result {
                Ok(device) => resolves_live(manager@, selection, Ok(device)),
                Err(ReserveDisplaySlotError::Device(error)) => resolves_live(
                    manager@,
                    selection,
                    Err(error),
                ),
                Err(_) => false,
            },
        Some(ManagerCommand::StartDisplaySetup { selection }) => reply matches ManagerReply::Start(
            result,
        ) && start_decided(manager, selection, result),
        Some(ManagerCommand::GetDisplaySetupOperation { display_id }) =>
            reply matches ManagerReply::Operation(known) && known == displays.dom().contains(
                segment_text(display_id@),
            ),
        Some(ManagerCommand::CancelDisplaySetup { display_id, stage }) =>
            reply matches ManagerReply::Cancel(cancel) && cancel == (displays.dom().contains(
                segment_text(display_id@),
            ) && !stage.terminal()),
        Some(ManagerCommand::ForgetDisplaySetupOperation { display_id, stage }) =>
            reply matches ManagerReply::Forgotten(forgotten) && forgotten
                == (displays.dom().contains(segment_text(display_id@)) && stage.terminal()
                && displays[segment_text(display_id@)].phase is Terminal),
        Some(ManagerCommand::RemoveDisplay { display_id, waiter }) =>
            reply matches ManagerReply::Removal(answer) && answer == (if displays.dom().contains(
                segment_text(display_id@),
            ) {
                displays[segment_text(display_id@)].phase.removal_answer()
            } else {
                RemovalRequest::Complete
            }),
    }
}

/// The decision about a setup is the one that the records are due.
pub open spec fn start_decided(
    manager: ManagerRuntimeState,
    selection: DeviceSelection,
    result: Result<StartDecision, StartDisplaySetupError>,
) -> bool {
    let displays = manager@.displays;
    match selection.defect {
        Some(defect) => result == Err::<StartDecision, _>(
            StartDisplaySetupError::InvalidSelection(defect),
        ),
        None => match result {
            Ok(StartDecision::Existing(display_id)) => claimed_by(
                displays,
                target_of(selection@),
                segment_text(display_id@),
            ),
            Ok(StartDecision::Spawn(target)) => {
                &&& target@ == target_of(selection@)
                &&& manager.displays.count() < MAX_RETAINED_SETUP_OPERATIONS
                &&& forall|key: Seq<char>| !claimed_by(displays, target_of(selection@), key)
            },
            Err(error) => {
                &&& error == StartDisplaySetupError::TooManyOperations
                &&& manager.displays.count() >= MAX_RETAINED_SETUP_OPERATIONS
                &&& forall|key: Seq<char>| !claimed_by(displays, target_of(selection@), key)
            },
        },
    }
}

/// What a worker tells the manager.
#[derive(Debug)]
pub enum BackendWorkerMessage {
    Event { backend_id: String, event: BackendSupervisorEvent },
    Stopped { backend_id: String },
}

/// What a message of a worker leads to.
#[derive(Debug, PartialEq, Eq)]
pub enum BackendReaction {
    Publish(Vec<InventoryEvent>),
    IgnoredStale,
    Rejected(AggregateError),
}

/// What is reported of a display by its owner.
#[derive(Debug, Clone, Copy, PartialEq, Eq, Structural)]
pub enum SlotReport {
    StateChanged,
    TerminalFailure,
}

/// What the manager announces of a display.
#[derive(Debug, Clone, Copy, PartialEq, Eq, Structural)]
pub enum Announcement {
    StateChanged,
    Removed,
}

/// A message of a worker was taken in as it is due: a rejected event leaves the
/// inventory as it was, and only a backend that cannot be marked as lost ends
/// the manager.
pub open spec fn backend_handled(
    before: ManagerView,
    message: Option<BackendWorkerMessage>,
    after: ManagerView,
    result: Result<BackendReaction, ManagerTaskError>,
) -> bool {
    &&& after.displays == before.displays
    &&& after.workers == before.workers
    &&& match message {
        Some(BackendWorkerMessage::Event { backend_id, event }) => {
            let (inventory, outcome) = applied(before.inventory, backend_id@, event);
            &&& after.inventory == inventory
            &&& result is Ok
            &&& match outcome {
                Ok(OutcomeView::Changed(events)) => result->Ok_0 matches BackendReaction::Publish(
                    changes,
                ) && events_view(changes@) == events,
                Ok(OutcomeView::IgnoredStale) => result->Ok_0 == BackendReaction::IgnoredStale,
                Err(error) => result->Ok_0 matches BackendReaction::Rejected(rejection)
                    && rejection@ == error,
            }
        },
        Some(BackendWorkerMessage::Stopped { backend_id }) => {
            let (inventory, outcome) = backend_lost(before.inventory, backend_id@);
            &&& after.inventory == inventory
            &&& match outcome {
                Ok(events) => result matches Ok(BackendReaction::Publish(changes)) && events_view(
                    changes@,
                ) == events,
                Err(error) => fails_with(result, error),
            }
        },
        None => if before.inventory.revision + reachable_count(
            all_devices(before.inventory.backends),
        ) > u64::MAX {
            &&& after.inventory == before.inventory
            &&& fails_with(result, AggregateErrorView::RevisionExhausted)
        } else {
            &&& result is Ok
            &&& result->Ok_0 is Publish
            &&& (after.inventory, events_view(result->Ok_0->Publish_0@)) == backends_lost(
                before.inventory,
                backend_ids(before.inventory.backends),
            )
        },
    }
}

/// A report of a display's owner was taken in as it is due: only what is there
/// is announced.
pub open spec fn slot_handled(
    before: ManagerView,
    display_id: CastDisplayId,
    report: SlotReport,
    after: ManagerView,
    announce: Option<Announcement>,
) -> bool {
    let key = segment_text(display_id@);
    let displays = before.displays;
    let active = displays.dom().contains(key) && displays[key].phase is Active;
    &&& announce == (if !active {
        None
    } else {
        match report {
            SlotReport::StateChanged => Some(Announcement::StateChanged),
            SlotReport::TerminalFailure => Some(Announcement::Removed),
        }
    })
    &&& after == (ManagerView {
        displays: if active && report == SlotReport::TerminalFailure {
            displays.insert(key, RecordView { phase: PhaseView::Terminal, ..displays[key] })
        } else {
            displays
        },
        ..before
    })
}

impl ManagerRuntimeState {
    pub fn new(workers: Vec<String>) -> (manager: Self)
        ensures
            manager@.wf(),
            one_claim_each(manager@.displays),
            manager@ == (ManagerView {
                inventory: InventoryView { revision: 0, backends: Seq::empty() },
                displays: Map::empty(),
                workers: texts_view(workers@),
            }),
    {
        ManagerRuntimeState {
            inventory: AggregateInventory::default(),
            displays: ManagedDisplays::new(),
            workers,
        }
    }

    fn has_worker(&self, backend_id: &str) -> (found: bool)
        ensures
            found == self@.workers.contains(backend_id@),
    {
        let ghost all = texts_view(self.workers@);
        let mut index: usize = 0;
        while index < self.workers.len()
            invariant
                index <= self.workers@.len(),
                all == texts_view(self.workers@),
                forall|i: int| 0 <= i < index ==> #[trigger] all[i] != backend_id@,
            decreases self.workers@.len() - index,
        {
            proof {
                assert(all[index as int] == self.workers@[index as int]@);
            }
            if same_text(self.workers[index].as_str(), backend_id) {
                return true;
            }
            index += 1;
        }
        false
    }

    /// The selected device, at a backend that has a worker.
    pub fn resolve_live_device(&self, selection: &DeviceSelection) -> (result: Result<
        DeviceInfo,
        ResolveDeviceError,
    >)
        requires
            self@.wf(),
        ensures
            resolves_live(self@, *selection, result),
    {
        match self.inventory.resolve_device(selection) {
            Err(error) => Err(error),
            Ok(device) => {
                if self.has_worker(device.backend_id.as_str()) {
                    Ok(device)
                } else {
                    Err(ResolveDeviceError::BackendUnavailable { backend_id: device.backend_id })
                }
            },
        }
    }

    /// React to a command, or to there being nobody left to give one.
    pub fn handle_command(&mut self, command: Option<ManagerCommand>) -> (reply: ManagerReply)
        requires
            old(self)@.wf(),
        ensures
            final(self)@.wf(),
            one_claim_each(old(self)@.displays) ==> one_claim_each(final(self)@.displays),
            final(self)@ == (ManagerView {
                displays: commanded(old(self)@.displays, command),
                ..old(self)@
            }),
            answers(*old(self), command, reply),
    {
        match command {
            None => ManagerReply::Stop,
            Some(ManagerCommand::ListDevices) => ManagerReply::Devices(self.inventory.snapshot()),
            Some(ManagerCommand::ListDisplays) => ManagerReply::Displays(
                self.displays.active_displays(),
            ),
            Some(ManagerCommand::GetDisplay { display_id }) => ManagerReply::Display(
                self.displays.is_active(display_id),
            ),
            Some(ManagerCommand::ResolveDevice { selection }) => ManagerReply::Resolved(
                self.resolve_live_device(&selection),
            ),
            Some(ManagerCommand::ReserveDisplaySlot { selection }) => ManagerReply::Reserve(
                match self.resolve_live_device(&selection) {
                    Ok(device) => Ok(device),
                    Err(error) => Err(ReserveDisplaySlotError::Device(error)),
                },
            ),
            Some(ManagerCommand::StartDisplaySetup { selection }) => ManagerReply::Start(
                self.displays.start_managed_display_setup(&selection),
            ),
            Some(ManagerCommand::GetDisplaySetupOperation { display_id }) =>
                ManagerReply::Operation(self.displays.contains(display_id)),
            Some(ManagerCommand::CancelDisplaySetup { display_id, stage }) => ManagerReply::Cancel(
                self.displays.cancel_display_setup(display_id, stage),
            ),
            Some(ManagerCommand::ForgetDisplaySetupOperation { display_id, stage }) =>
                ManagerReply::Forgotten(
                    self.displays.forget_display_setup_operation(display_id, stage),
                ),
            Some(ManagerCommand::RemoveDisplay { display_id, waiter }) => ManagerReply::Removal(
                self.displays.remove_display(display_id, waiter),
            ),
        }
    }

    /// React to a message of a worker, or to the end of all messages.
    ///
    /// A rejected event leaves the inventory as it was, and the manager goes
    /// on; a backend that cannot be marked as lost ends it.
    pub fn handle_backend_message(&mut self, message: Option<BackendWorkerMessage>) -> (result: Result<
        BackendReaction,
        ManagerTaskError,
    >)
        requires
            old(self)@.wf(),
            message matches Some(BackendWorkerMessage::Event { event, .. }) ==> event_fits(event),
        ensures
            final(self)@.wf(),
            backend_handled(old(self)@, message, final(self)@, result),
    {
        match message {
            Some(BackendWorkerMessage::Event { backend_id, event }) => Ok(
                match self.inventory.apply_supervisor_event(backend_id.as_str(), &event) {
                    Ok(ApplySupervisorOutcome::Changed(events)) => BackendReaction::Publish(events),
                    Ok(ApplySupervisorOutcome::IgnoredStale) => BackendReaction::IgnoredStale,
                    Err(error) => BackendReaction::Rejected(error),
                },
            ),
            Some(BackendWorkerMessage::Stopped { backend_id }) => {
                match self.inventory.mark_backend_unavailable(backend_id.as_str()) {
                    Ok(events) => Ok(BackendReaction::Publish(events)),
                    Err(error) => Err(ManagerTaskError::Aggregate(error.to_text())),
                }
            },
            None => match self.inventory.mark_all_unavailable() {
                Ok(events) => Ok(BackendReaction::Publish(events)),
                Err(error) => Err(ManagerTaskError::Aggregate(error.to_text())),
            },
        }
    }

    /// Bring an added display up to what is known of its device, before its owner
    /// starts.
    pub fn refresh_added(&self, display: &mut AddedCastDisplay) -> (changed: bool)
        requires
            self@.wf(),
        ensures
            final(display).display_id == old(display).display_id,
            final(display).device@ == configured(self@.inventory, old(display).device@),
            changed == (final(display).device@ != old(display).device@),
            final(display).state_revision == (if changed {
                larger(next(old(display).state_revision), final(display).device@.device_revision)
            } else {
                old(display).state_revision
            }),
    {
        let device = self.inventory.configured_device(&display.device);
        display.update_device(device)
    }

    /// React to a report of a display's owner: what to announce, if anything.
    pub fn handle_slot_event(&mut self, display_id: CastDisplayId, report: SlotReport) -> (announce: Option<
        Announcement,
    >)
        requires
            old(self)@.wf(),
        ensures
            final(self)@.wf(),
            one_claim_each(old(self)@.displays) ==> one_claim_each(final(self)@.displays),
            slot_handled(old(self)@, display_id, report, final(self)@, announce),
    {
        match report {
            SlotReport::StateChanged => {
                if self.displays.is_active(display_id) {
                    Some(Announcement::StateChanged)
                } else {
                    None
                }
            },
            SlotReport::TerminalFailure => {
                if self.displays.display_failed(display_id) {
                    Some(Announcement::Removed)
                } else {
                    None
                }
            },
        }
    }
}

/// What happens to the manager.
#[derive(Debug)]
pub enum ManagerEvent {
    /// The owner wants it to end, or is gone.
    OwnerShutdown { waiting: bool },
    Command(Option<ManagerCommand>),
    SetupJoined { display_id: CastDisplayId, join: SetupJoin },
    RemovalJoined { display_id: CastDisplayId, result: Result<(), String> },
    Backend(Option<BackendWorkerMessage>),
    Slot(Option<(CastDisplayId, SlotReport)>),
}

/// How the manager goes on after an event.
#[derive(Debug)]
pub enum ManagerFlow {
    /// Answer a command.
    Reply(ManagerReply),
    /// Go on after a setup or a removal has ended.
    Joined(JoinOutcome),
    /// Publish the changes; with `closed`, no message will follow.
    Inventory { reaction: BackendReaction, closed: bool },
    Announce(Option<Announcement>),
    /// End: the owner waits for the report, or nobody does.
    Stop { waiting: bool },
    Fail(ManagerTaskError),
}

/// What is left to do once a removal has ended.
pub open spec fn removal_outcome(displays: Map<Seq<char>, RecordView>, key: Seq<char>) -> JoinView {
    let known = displays.dom().contains(key);
    JoinView {
        waiters: if known {
            match displays[key].phase {
                PhaseView::Removing { waiters } => waiters,
                _ => Seq::empty(),
            }
        } else {
            Seq::empty()
        },
        announce: known,
        start_removal: false,
    }
}

/// The manager took an event in as it is due.
pub open spec fn manager_reacts(
    before: ManagerRuntimeState,
    event: ManagerEvent,
    after: ManagerView,
    flow: ManagerFlow,
) -> bool {
    match event {
        ManagerEvent::OwnerShutdown { waiting } => after == before@ && flow == (
        ManagerFlow::Stop { waiting }),
        ManagerEvent::Command(None) => after == before@ && flow == (ManagerFlow::Stop {
            waiting: false,
        }),
        ManagerEvent::Command(command) => {
            &&& after == (ManagerView {
                displays: commanded(before@.displays, command),
                ..before@
            })
            &&& flow matches ManagerFlow::Reply(reply) && answers(before, command, reply)
        },
        ManagerEvent::SetupJoined { display_id, join } => {
            &&& after == (ManagerView {
                displays: setup_joined(before@.displays, segment_text(display_id@), join),
                ..before@
            })
            &&& flow matches ManagerFlow::Joined(outcome)
            &&& outcome@ == setup_outcome(before@.displays, segment_text(display_id@), join)
            &&& tells(outcome.answer, setup_answer(join))
        },
        ManagerEvent::RemovalJoined { display_id, result } => {
            &&& after == (ManagerView {
                displays: before@.displays.remove(segment_text(display_id@)),
                ..before@
            })
            &&& flow matches ManagerFlow::Joined(outcome)
            &&& outcome@ == removal_outcome(before@.displays, segment_text(display_id@))
            &&& match result {
                Ok(_) => outcome.answer is Ok,
                Err(text) => outcome.answer == Err::<(), _>(
                    RemoveManagedDisplayError::Cleanup(text),
                ),
            }
        },
        ManagerEvent::Backend(message) => match flow {
            ManagerFlow::Inventory { reaction, closed } => {
                &&& closed == (message is None)
                &&& backend_handled(before@, message, after, Ok(reaction))
            },
            ManagerFlow::Fail(error) => backend_handled(before@, message, after, Err(error)),
            _ => false,
        },
        ManagerEvent::Slot(None) => after == before@ && flow == ManagerFlow::Announce(None),
        ManagerEvent::Slot(Some((display_id, report))) => flow matches ManagerFlow::Announce(
            announce,
        ) && slot_handled(before@, display_id, report, after, announce),
    }
}

/// An event is about a setup that has not ended yet.
pub open spec fn setup_is_open(manager: ManagerView, event: ManagerEvent) -> bool {
    event matches ManagerEvent::SetupJoined { display_id, .. } ==> {
        let key = segment_text(display_id@);
        manager.displays.dom().contains(key) ==> !(manager.displays[key].phase is Terminal)
    }
}

/// React to one event. Every input has a part of its own here, so that no
/// input has to wait for another.
pub fn run_manager(state: &mut ManagerRuntimeState, event: ManagerEvent) -> (flow: ManagerFlow)
    requires
        old(state)@.wf(),
        event matches ManagerEvent::Backend(Some(BackendWorkerMessage::Event { event, .. }))
            ==> event_fits(event),
    ensures
        final(state)@.wf(),
        one_claim_each(old(state)@.displays) && setup_is_open(old(state)@, event)
            ==> one_claim_each(final(state)@.displays),
        manager_reacts(*old(state), event, final(state)@, flow),
{
    match event {
        ManagerEvent::OwnerShutdown { waiting } => ManagerFlow::Stop { waiting },
        ManagerEvent::Command(None) => ManagerFlow::Stop { waiting: false },
        ManagerEvent::Command(Some(command)) => ManagerFlow::Reply(
            state.handle_command(Some(command)),
        ),
        ManagerEvent::SetupJoined { display_id, join } => ManagerFlow::Joined(
            state.displays.handle_setup_join(display_id, join),
        ),
        ManagerEvent::RemovalJoined { display_id, result } => ManagerFlow::Joined(
            state.displays.handle_removal_join(display_id, result),
        ),
        ManagerEvent::Backend(message) => {
            let closed = message.is_none();
            match state.handle_backend_message(message) {
                Ok(reaction) => ManagerFlow::Inventory { reaction, closed },
                Err(error) => ManagerFlow::Fail(error),
            }
        },
        ManagerEvent::Slot(None) => ManagerFlow::Announce(None),
        ManagerEvent::Slot(Some((display_id, report))) => ManagerFlow::Announce(
            state.handle_slot_event(display_id, report),
        ),
    }
}

/// The answer to a reservation once the outputs were asked.
pub fn output_reserved(device: DeviceInfo, reservation: Result<(), OutputReservationError>) -> (result: Result<
    DeviceInfo,
    ReserveDisplaySlotError,
>)
    ensures
        result == match reservation {
            Ok(_) => Ok::<DeviceInfo, ReserveDisplaySlotError>(device),
            Err(error) => Err(ReserveDisplaySlotError::Output(error)),
        },
{
    match reservation {
        Ok(()) => Ok(device),
        Err(error) => Err(ReserveDisplaySlotError::Output(error)),
    }
}

/// The display is there.
pub open spec fn is_there(records: Map<Seq<char>, RecordView>, display_id: CastDisplayId) -> bool {
    records.dom().contains(segment_text(display_id@)) && records[segment_text(
        display_id@,
    )].phase is Active
}

/// The displays that are there and whose device an event is about, and the device
/// as it is now.
pub open spec fn refreshed(
    records: Map<Seq<char>, RecordView>,
    displays: Seq<(CastDisplayId, DeviceInfo)>,
    event: InventoryEventView,
) -> Seq<(CastDisplayId, DeviceView)>
    decreases displays.len(),
{
    if displays.len() == 0 {
        Seq::empty()
    } else {
        let earlier = refreshed(records, displays.drop_last(), event);
        match configured_update(displays.last().1@, event) {
            Some(device) if is_there(records, displays.last().0) => earlier.push(
                (displays.last().0, device),
            ),
            _ => earlier,
        }
    }
}

/// The contents of a list of updates.
pub open spec fn updates_view(updates: Seq<(CastDisplayId, DeviceInfo)>) -> Seq<
    (CastDisplayId, DeviceView),
> {
    updates.map_values(|update: (CastDisplayId, DeviceInfo)| (update.0, update.1@))
}

/// Which displays an inventory event updates, of those that are there.
pub fn refresh_configured_displays(
    records: &ManagedDisplays,
    displays: &Vec<(CastDisplayId, DeviceInfo)>,
    event: &InventoryEvent,
) -> (updates: Vec<(CastDisplayId, DeviceInfo)>)
    ensures
        updates_view(updates@) == refreshed(records@, displays@, event@),
{
    let mut updates: Vec<(CastDisplayId, DeviceInfo)> = Vec::new();
    let mut index: usize = 0;
    proof {
        assert(displays@.take(0) =~= Seq::empty());
        assert(updates_view(updates@) =~= Seq::empty());
    }
    while index < displays.len()
        invariant
            index <= displays@.len(),
            updates_view(updates@) == refreshed(
                records@,
                displays@.take(index as int),
                event@,
            ),
        decreases displays@.len() - index,
    {
        let ghost earlier = updates_view(updates@);
        proof {
            let upto = displays@.take(index + 1);
            assert(upto.drop_last() =~= displays@.take(index as int));
            assert(upto.last() == displays@[index as int]);
        }
        let display = &displays[index];
        if records.is_active(display.0) {
            if let Some(device) = configured_device_update(&display.1, event) {
                let ghost update = (display.0, device@);
                updates.push((display.0, device));
                proof {
                    assert(updates_view(updates@) =~= earlier.push(update));
                }
            }
        }
        index += 1;
    }
    proof {
        assert(displays@.take(index as int) =~= displays@);
    }
    updates
}

/// The manager ends with the error of its inventory.
pub open spec fn fails_with(
    result: Result<BackendReaction, ManagerTaskError>,
    error: AggregateErrorView,
) -> bool {
    result matches Err(ManagerTaskError::Aggregate(text)) && text@ == error.text()
}

/// A display is removed once, however often it is asked for, and asking again
/// after that succeeds at once.
pub proof fn removal_is_idempotent(
    displays: Map<Seq<char>, RecordView>,
    display_id: CastDisplayId,
    first: u64,
    second: u64,
)
    ensures
        ({
            let key = segment_text(display_id@);
            let once = commanded(
                displays,
                Some(ManagerCommand::RemoveDisplay { display_id, waiter: first }),
            );
            let twice = commanded(
                once,
                Some(ManagerCommand::RemoveDisplay { display_id, waiter: second }),
            );
            &&& displays.dom().contains(key) ==> once[key].phase.removal_answer()
                != RemovalRequest::Start
            &&& !displays.dom().contains(key) ==> once == displays && twice == displays
        }),
{
}

/// A selection resolves to a device that is listed in just that record, that is available,
/// and whose backend runs; each other case has an error of its own.
pub proof fn selections_resolve_to_live_devices(
    manager: ManagerView,
    selection: DeviceSelection,
    result: Result<DeviceInfo, ResolveDeviceError>,
)
    requires
        resolves_live(manager, selection, result),
    ensures
        ({
            let found = manager.inventory.device(selection.backend_id@, selection.device_id@);
            let current = found is Some && selection.backend_id@ == found->0.backend_id
                && selection.device_id@ == found->0.device_id && selection.connection_generation
                == found->0.connection_generation && selection.discovery_generation
                == found->0.discovery_generation && selection.device_revision
                == found->0.device_revision;
            let sound = selection.defect is None;
            &&& result is Ok <==> sound && current && found->0.availability is Available
                && manager.workers.contains(found->0.backend_id)
            &&& result is Ok ==> result->Ok_0@ == found->0
            &&& result is Err && result->Err_0 is InvalidSelection <==> !sound
            &&& result is Err && result->Err_0 is NotFound <==> sound && found is None
            &&& result is Err && result->Err_0 is StaleSelection <==> sound && found is Some
                && !current
            &&& result is Err && result->Err_0 is Unavailable <==> sound && current && !(
            found->0.availability is Available)
            &&& result is Err && result->Err_0 is BackendUnavailable <==> sound && current
                && found->0.availability is Available && !manager.workers.contains(
                found->0.backend_id,
            )
            &&& result is Err && result->Err_0 is Unavailable
                ==> result->Err_0->Unavailable_availability == found->0.availability
                && result->Err_0->Unavailable_backend_id == selection.backend_id
                && result->Err_0->Unavailable_device_id == selection.device_id
            &&& result is Err && result->Err_0 is NotFound ==> result->Err_0->NotFound_backend_id
                == selection.backend_id && result->Err_0->NotFound_device_id == selection.device_id
            &&& result is Err && result->Err_0 is StaleSelection
                ==> result->Err_0->StaleSelection_backend_id == selection.backend_id
                && result->Err_0->StaleSelection_device_id == selection.device_id
            &&& result is Err && result->Err_0 is BackendUnavailable
                ==> result->Err_0->BackendUnavailable_backend_id@ == found->0.backend_id
            &&& result is Err && result->Err_0 is InvalidSelection
                ==> result->Err_0->InvalidSelection_0 == selection.defect->0
        }),
{
}

/// Questions change no display; a removal that is asked for, and an operation that is
/// forgotten, change the record of that display alone.
pub proof fn questions_change_no_display(
    displays: Map<Seq<char>, RecordView>,
    command: Option<ManagerCommand>,
    other: Seq<char>,
)
    ensures
        command is None || !(command->0 is ForgetDisplaySetupOperation || command->0
            is RemoveDisplay) ==> commanded(displays, command) == displays,
        command matches Some(ManagerCommand::RemoveDisplay { display_id, waiter }) ==> {
            let key = segment_text(display_id@);
            let after = commanded(displays, command);
            &&& after.dom() =~= displays.dom()
            &&& displays.dom().contains(other) && other != key ==> after[other] == displays[other]
            &&& displays.dom().contains(key) ==> after[key].display_id == displays[key].display_id
                && after[key].target == displays[key].target && (displays[key].phase is Terminal
                || after[key].phase.waiting().contains(waiter))
        },
        command matches Some(ManagerCommand::ForgetDisplaySetupOperation { display_id, stage })
            ==> {
            let key = segment_text(display_id@);
            let after = commanded(displays, command);
            &&& other != key ==> (after.dom().contains(other) <==> displays.dom().contains(other))
            &&& displays.dom().contains(other) && other != key ==> after[other] == displays[other]
            &&& after.dom().contains(key) <==> displays.dom().contains(key) && !(
            displays[key].phase is Terminal && (stage is Added || stage is Cancelled || stage
                is Failed))
            &&& after.dom().contains(key) ==> after[key] == displays[key]
        },
{
    match command {
        Some(ManagerCommand::RemoveDisplay { display_id, waiter }) => {
            let key = segment_text(display_id@);
            if displays.dom().contains(key) && !(displays[key].phase is Terminal) {
                let waiting = displays[key].phase.after_removal_request(waiter).waiting();
                assert(waiting[waiting.len() - 1] == waiter);
            }
        },
        _ => {},
    }
}

/// Every command has a reply of its own kind, and what it says is what the records say.
pub proof fn commands_are_answered_from_the_records(
    manager: ManagerRuntimeState,
    command: ManagerCommand,
    reply: ManagerReply,
)
    requires
        answers(manager, Some(command), reply),
    ensures
        command matches ManagerCommand::ListDevices ==> reply is Devices
            && reply->Devices_0.inventory_revision == manager@.inventory.revision,
        command matches ManagerCommand::GetDisplay { display_id } ==> reply is Display && (
        reply->Display_0 <==> manager@.displays.dom().contains(segment_text(display_id@))
            && manager@.displays[segment_text(display_id@)].phase is Active),
        command matches ManagerCommand::GetDisplaySetupOperation { display_id } ==> reply
            is Operation && (reply->Operation_0 <==> manager@.displays.dom().contains(
            segment_text(display_id@),
        )),
        command matches ManagerCommand::CancelDisplaySetup { display_id, stage } ==> reply is Cancel
            && (reply->Cancel_0 <==> manager@.displays.dom().contains(segment_text(display_id@))
            && (stage is Validating || stage is Authorizing || stage is PreparingDevice || stage
            is Attaching)),
        command matches ManagerCommand::ResolveDevice { selection } ==> reply is Resolved
            && resolves_live(manager@, selection, reply->Resolved_0),
        command matches ManagerCommand::ReserveDisplaySlot { selection } ==> reply is Reserve && (
        reply->Reserve_0 is Ok ==> resolves_live(
            manager@,
            selection,
            Ok::<DeviceInfo, ResolveDeviceError>(reply->Reserve_0->Ok_0),
        )),
        command matches ManagerCommand::RemoveDisplay { display_id, waiter } ==> reply is Removal
            && (!manager@.displays.dom().contains(segment_text(display_id@)) ==> reply->Removal_0
            is Complete) && (manager@.displays.dom().contains(segment_text(display_id@)) ==> (
        reply->Removal_0 is Start <==> manager@.displays[segment_text(display_id@)].phase
            is Active)),
        command matches ManagerCommand::ListDisplays ==> reply is Displays && forall|
            key: Seq<char>,
        | #[trigger]
            segments_of(reply->Displays_0@).contains(key) <==> manager@.displays.dom().contains(key)
                && manager@.displays[key].phase is Active,
{
}

/// What the owner of a display tells is announced only while the display is active; its
/// failure ends that, and is announced as a removal.
pub proof fn displays_are_announced_while_they_are_there(
    before: ManagerView,
    display_id: CastDisplayId,
    report: SlotReport,
    after: ManagerView,
    announce: Option<Announcement>,
)
    requires
        slot_handled(before, display_id, report, after, announce),
    ensures
        ({
            let key = segment_text(display_id@);
            let active = before.displays.dom().contains(key) && before.displays[key].phase
                is Active;
            &&& announce is Some <==> active
            &&& announce is Some ==> (announce->0 is StateChanged <==> report is StateChanged)
            &&& announce is Some ==> (announce->0 is Removed <==> report is TerminalFailure)
            &&& after.inventory == before.inventory
            &&& after.workers == before.workers
            &&& !(active && report is TerminalFailure) ==> after.displays == before.displays
            &&& active && report is TerminalFailure ==> after.displays.dom().contains(key)
                && after.displays[key].phase is Terminal && after.displays[key].target
                == before.displays[key].target
        }),
{
}

/// Only displays that are there follow a change, each with its own device and in their
/// order.
pub proof fn displays_follow_changes_one_by_one(
    records: Map<Seq<char>, RecordView>,
    left: Seq<(CastDisplayId, DeviceInfo)>,
    right: Seq<(CastDisplayId, DeviceInfo)>,
    event: InventoryEventView,
    display_id: CastDisplayId,
    device: DeviceInfo,
)
    ensures
        refreshed(records, left + right, event) == refreshed(records, left, event) + refreshed(
            records,
            right,
            event,
        ),
        ({
            let one = refreshed(records, seq![(display_id, device)], event);
            let update = configured_update(device@, event);
            let there = records.dom().contains(segment_text(display_id@)) && records[segment_text(
                display_id@,
            )].phase is Active;
            &&& there && update is Some ==> one == seq![(display_id, update->0)]
            &&& !(there && update is Some) ==> one.len() == 0
        }),
    decreases right.len(),
{
    let list = seq![(display_id, device)];
    assert(list.drop_last() =~= Seq::empty());
    assert(
        refreshed(records, list.drop_last(), event) == Seq::<(CastDisplayId, DeviceView)>::empty()
    );
    let one = refreshed(records, list, event);
    let update = configured_update(device@, event);
    if is_there(records, display_id) && update is Some {
        assert(one =~= seq![(display_id, update->0)]);
    }
    if right.len() > 0 {
        displays_follow_changes_one_by_one(
            records,
            left,
            right.drop_last(),
            event,
            display_id,
            device,
        );
        assert((left + right).drop_last() =~= left + right.drop_last());
        assert((left + right).last() == right.last());
        assert(refreshed(records, left + right, event) =~= refreshed(records, left, event)
            + refreshed(records, right, event));
    } else {
        assert(left + right =~= left);
        assert(refreshed(records, left, event) + refreshed(records, right, event) =~= refreshed(
            records,
            left,
            event,
        ));
    }
}

/// The owner ends the manager, and so does the loss of everyone who could ask; nothing else
/// does but a failure. No event touches both the inventory and the displays.
pub proof fn managers_end_when_asked(
    before: ManagerRuntimeState,
    event: ManagerEvent,
    after: ManagerView,
    flow: ManagerFlow,
)
    requires
        manager_reacts(before, event, after, flow),
    ensures
        flow is Stop <==> event is OwnerShutdown || (event is Command && event->Command_0 is None),
        event matches ManagerEvent::OwnerShutdown { waiting } ==> flow == (ManagerFlow::Stop {
            waiting,
        }),
        event is Command && event->Command_0 is None ==> flow == (ManagerFlow::Stop {
            waiting: false,
        }),
        flow is Fail ==> event is Backend,
        flow is Reply <==> event is Command && event->Command_0 is Some,
        flow is Joined <==> event is SetupJoined || event is RemovalJoined,
        event is Backend ==> after.displays == before@.displays,
        !(event is Backend) ==> after.inventory == before@.inventory,
        after.workers == before@.workers,
        event matches ManagerEvent::RemovalJoined { display_id, result }
            ==> !after.displays.dom().contains(segment_text(display_id@)) && (result is Ok
            <==> flow->Joined_0.answer is Ok) && (flow->Joined_0.announce
            <==> before@.displays.dom().contains(segment_text(display_id@))),
{
}

/// The wish for a display is decided for the device that was selected: it gets the display that
/// holds the device, or a new one while there is room for 128.
pub proof fn wishes_are_decided_for_their_device(
    manager: ManagerRuntimeState,
    selection: DeviceSelection,
    reply: ManagerReply,
)
    requires
        answers(manager, Some(ManagerCommand::StartDisplaySetup { selection }), reply),
    ensures
        reply is Start,
        selection.defect is Some ==> reply->Start_0 is Err && reply->Start_0->Err_0
            == StartDisplaySetupError::InvalidSelection(selection.defect->0),
        reply->Start_0 matches Ok(StartDecision::Spawn(target)) ==> target.backend_id@
            == selection.backend_id@ && target.device_id@ == selection.device_id@,
        reply->Start_0 matches Ok(StartDecision::Existing(display_id)) ==> {
            let held = segment_text(display_id@);
            &&& manager@.displays.dom().contains(held)
            &&& manager@.displays[held].target == (selection.backend_id@, selection.device_id@)
            &&& !(manager@.displays[held].phase is Terminal)
        },
        selection.defect is None && reply->Start_0 is Err ==> reply->Start_0->Err_0
            is TooManyOperations && manager.displays.count() >= 128,
        reply->Start_0 matches Ok(StartDecision::Spawn(_)) ==> manager.displays.count() < 128,
{
}

} // verus!
