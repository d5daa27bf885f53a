//! The displays that the manager owns, from setup to removal.

use crate::display::setup::DisplaySetupOperationError;
use crate::display::{segment_text, CastDisplayId, DisplaySetupStage};
use crate::manager::{RemoveManagedDisplayError, StartDisplaySetupError};
use crate::order::same_text;
use crate::ordered::{sorted_keys, OrderedMap};
use crate::protocol::{DeviceSelection, SelectionView};
use vstd::prelude::*;

verus! {

/// Most setup operations that are kept at once.
pub const MAX_RETAINED_SETUP_OPERATIONS: usize = 128;

/// The device that a display is for.
#[derive(Debug, PartialEq, Eq)]
pub struct DeviceTarget {
    pub backend_id: String,
    pub device_id: String,
}

impl View for DeviceTarget {
    type V = (Seq<char>, Seq<char>);

    open spec fn view(&self) -> (Seq<char>, Seq<char>) {
        (self.backend_id@, self.device_id@)
    }
}

/// The device that a selection names.
pub open spec fn target_of(selection: SelectionView) -> (Seq<char>, Seq<char>) {
    (selection.backend_id, selection.device_id)
}

impl DeviceTarget {
    pub fn from_selection(selection: &DeviceSelection) -> (target: Self)
        ensures
            target@ == target_of(selection@),
    {
        DeviceTarget {
            backend_id: selection.backend_id.clone(),
            device_id: selection.device_id.clone(),
        }
    }

    fn same(&self, other: &DeviceTarget) -> (same: bool)
        ensures
            same == (self@ == other@),
    {
        same_text(self.backend_id.as_str(), other.backend_id.as_str()) && same_text(
            self.device_id.as_str(),
            other.device_id.as_str(),
        )
    }
}

/// How far a display is. Those who wait for its removal are known by numbers.
#[derive(Debug, PartialEq, Eq)]
pub enum ManagedDisplayPhase {
    SettingUp,
    CancellingSetup { waiters: Vec<u64> },
    Active,
    Removing { waiters: Vec<u64> },
    /// The result of the setup stays visible; the device is free again.
    Terminal,
}

/// The contents of a [`ManagedDisplayPhase`].
pub enum PhaseView {
    SettingUp,
    CancellingSetup { waiters: Seq<u64> },
    Active,
    Removing { waiters: Seq<u64> },
    Terminal,
}

impl View for ManagedDisplayPhase {
    type V = PhaseView;

    open spec fn view(&self) -> PhaseView {
        match *self {
            ManagedDisplayPhase::SettingUp => PhaseView::SettingUp,
            ManagedDisplayPhase::CancellingSetup { waiters } => PhaseView::CancellingSetup {
                waiters: waiters@,
            },
            ManagedDisplayPhase::Active => PhaseView::Active,
            ManagedDisplayPhase::Removing { waiters } => PhaseView::Removing { waiters: waiters@ },
            ManagedDisplayPhase::Terminal => PhaseView::Terminal,
        }
    }
}

/// One display that the manager owns.
#[derive(Debug, PartialEq, Eq)]
pub struct ManagedDisplayRecord {
    pub display_id: CastDisplayId,
    pub target: DeviceTarget,
    pub phase: ManagedDisplayPhase,
}

/// The contents of a [`ManagedDisplayRecord`].
pub struct RecordView {
    pub display_id: Seq<u8>,
    pub target: (Seq<char>, Seq<char>),
    pub phase: PhaseView,
}

impl View for ManagedDisplayRecord {
    type V = RecordView;

    open spec fn view(&self) -> RecordView {
        RecordView {
            display_id: self.display_id@,
            target: self.target@,
            phase: self.phase@,
        }
    }
}

/// The answer to one who wants a display removed.
#[derive(Debug, Clone, Copy, PartialEq, Eq, Structural)]
pub enum RemovalRequest {
    /// Remove the display.
    Start,
    /// Wait for what is under way; a setup that was not cancelled yet is.
    Queued { cancel_setup: bool },
    /// There is nothing to remove.
    Complete,
}

impl PhaseView {
    /// The phase once someone waits for a removal.
    pub open spec fn after_removal_request(self, waiter: u64) -> PhaseView {
        match self {
            PhaseView::SettingUp => PhaseView::CancellingSetup { waiters: seq![waiter] },
            PhaseView::CancellingSetup { waiters } => PhaseView::CancellingSetup {
                waiters: waiters.push(waiter),
            },
            PhaseView::Active => PhaseView::Removing { waiters: seq![waiter] },
            PhaseView::Removing { waiters } => PhaseView::Removing {
                waiters: waiters.push(waiter),
            },
            PhaseView::Terminal => PhaseView::Terminal,
        }
    }

    /// The answer to a request for removal in this phase.
    pub open spec fn removal_answer(self) -> RemovalRequest {
        match self {
            PhaseView::SettingUp => RemovalRequest::Queued { cancel_setup: true },
            PhaseView::CancellingSetup { .. } => RemovalRequest::Queued { cancel_setup: false },
            PhaseView::Active => RemovalRequest::Start,
            PhaseView::Removing { .. } => RemovalRequest::Queued { cancel_setup: false },
            PhaseView::Terminal => RemovalRequest::Complete,
        }
    }

    /// Those who wait for a removal.
    pub open spec fn waiting(self) -> Seq<u64> {
        match self {
            PhaseView::CancellingSetup { waiters } => waiters,
            PhaseView::Removing { waiters } => waiters,
            _ => Seq::empty(),
        }
    }
}

impl ManagedDisplayRecord {
    /// Note one who waits for the removal of the display.
    pub fn request_removal(&mut self, waiter: u64) -> (answer: RemovalRequest)
        ensures
            final(self)@ == (RecordView {
                phase: old(self)@.phase.after_removal_request(waiter),
                ..old(self)@
            }),
            answer == old(self)@.phase.removal_answer(),
    {
        let (next, answer) = match &mut self.phase {
            ManagedDisplayPhase::SettingUp => {
                let waiters: Vec<u64> = vec![waiter];
                proof {
                    assert(waiters@ =~= seq![waiter]);
                }
                (
                    Some(ManagedDisplayPhase::CancellingSetup { waiters }),
                    RemovalRequest::Queued { cancel_setup: true },
                )
            },
            ManagedDisplayPhase::CancellingSetup { waiters } => {
                waiters.push(waiter);
                (None, RemovalRequest::Queued { cancel_setup: false })
            },
            ManagedDisplayPhase::Active => {
                let waiters: Vec<u64> = vec![waiter];
                proof {
                    assert(waiters@ =~= seq![waiter]);
                }
                (Some(ManagedDisplayPhase::Removing { waiters }), RemovalRequest::Start)
            },
            ManagedDisplayPhase::Removing { waiters } => {
                waiters.push(waiter);
                (None, RemovalRequest::Queued { cancel_setup: false })
            },
            ManagedDisplayPhase::Terminal => (None, RemovalRequest::Complete),
        };
        if let Some(next) = next {
            self.phase = next;
        }
        answer
    }

    /// End an active display; false, and no change, for any other.
    pub fn retire_active(&mut self) -> (retired: bool)
        ensures
            retired == (old(self)@.phase is Active),
            final(self)@ == (RecordView {
                phase: if retired {
                    PhaseView::Terminal
                } else {
                    old(self)@.phase
                },
                ..old(self)@
            }),
    {
        if matches!(self.phase, ManagedDisplayPhase::Active) {
            self.phase = ManagedDisplayPhase::Terminal;
            true
        } else {
            false
        }
    }
}

/// The contents of the manager's records, by the path segment of their ID.
pub open spec fn records_view(records: Map<Seq<char>, ManagedDisplayRecord>) -> Map<
    Seq<char>,
    RecordView,
> {
    records.map_values(|record: ManagedDisplayRecord| record@)
}

/// Each record is under its own ID.
pub open spec fn records_wf(records: Map<Seq<char>, RecordView>) -> bool {
    forall|key: Seq<char>| #[trigger]
        records.dom().contains(key) ==> key == segment_text(records[key].display_id)
}

/// A device is claimed by at most one display that is not terminal.
pub open spec fn one_claim_each(records: Map<Seq<char>, RecordView>) -> bool {
    forall|left: Seq<char>, right: Seq<char>|
        #![trigger records[left], records[right]]
        records.dom().contains(left) && records.dom().contains(right) && records[left].target
            == records[right].target && !(records[left].phase is Terminal) && !(
        records[right].phase is Terminal) ==> left == right
}

/// A display that is not terminal claims the device.
pub open spec fn claimed_by(
    records: Map<Seq<char>, RecordView>,
    target: (Seq<char>, Seq<char>),
    key: Seq<char>,
) -> bool {
    records.dom().contains(key) && records[key].target == target && !(
    records[key].phase is Terminal)
}

/// How a setup starts.
#[derive(Debug, PartialEq, Eq)]
pub enum StartDecision {
    /// The device has a display already: hand out its operation.
    Existing(CastDisplayId),
    /// Make a new operation.
    Spawn(DeviceTarget),
}

/// What came of a setup.
#[derive(Debug, PartialEq, Eq)]
pub enum SetupJoin {
    /// The task itself failed.
    TaskFailed(String),
    /// The display is there; its owner started, or did not.
    Added { owner: Result<(), String> },
    /// There is no display. `clean` tells that the setup ended by itself, and
    /// has cleaned up.
    NotAdded { clean: bool, error: String },
}

impl SetupJoin {
    /// The end of a setup that gave no display. One that failed by itself has
    /// cleaned up.
    pub fn not_added(error: &DisplaySetupOperationError, cause: &str) -> (join: Self)
        ensures
            join matches SetupJoin::NotAdded { clean, error: text } && clean == (error is Setup)
                && text@ == error.text(cause@),
    {
        SetupJoin::NotAdded {
            clean: matches!(error, DisplaySetupOperationError::Setup(_)),
            error: error.to_text(cause),
        }
    }
}

/// What is left to do when a task of a display has ended.
#[derive(Debug)]
pub struct JoinOutcome {
    /// Those who have waited, and what they are told.
    pub waiters: Vec<u64>,
    pub answer: Result<(), RemoveManagedDisplayError>,
    /// The display is announced as added, or as removed.
    pub announce: bool,
    /// The display is removed at once.
    pub start_removal: bool,
}

/// The contents of a [`JoinOutcome`].
pub struct JoinView {
    pub waiters: Seq<u64>,
    pub announce: bool,
    pub start_removal: bool,
}

impl View for JoinOutcome {
    type V = JoinView;

    open spec fn view(&self) -> JoinView {
        JoinView {
            waiters: self.waiters@,
            announce: self.announce,
            start_removal: self.start_removal,
        }
    }
}

/// Those who wait for a setup to be cancelled.
pub open spec fn cancellation_waiters(phase: PhaseView) -> Seq<u64> {
    match phase {
        PhaseView::CancellingSetup { waiters } => waiters,
        _ => Seq::empty(),
    }
}

/// The records once a setup has ended.
pub open spec fn setup_joined(
    records: Map<Seq<char>, RecordView>,
    key: Seq<char>,
    join: SetupJoin,
) -> Map<Seq<char>, RecordView> {
    if !records.dom().contains(key) {
        records
    } else {
        let record = records[key];
        match join {
            SetupJoin::TaskFailed(_) => records.remove(key),
            SetupJoin::Added { owner: Ok(_) } => records.insert(
                key,
                RecordView {
                    phase: match record.phase {
                        PhaseView::CancellingSetup { waiters } => PhaseView::Removing { waiters },
                        _ => PhaseView::Active,
                    },
                    ..record
                },
            ),
            _ => records.insert(key, RecordView { phase: PhaseView::Terminal, ..record }),
        }
    }
}

/// What is left to do once a setup has ended.
pub open spec fn setup_outcome(
    records: Map<Seq<char>, RecordView>,
    key: Seq<char>,
    join: SetupJoin,
) -> JoinView {
    let known = records.dom().contains(key);
    let cancelling = known && records[key].phase is CancellingSetup;
    let added = known && (join matches SetupJoin::Added { owner } && owner is Ok);
    JoinView {
        waiters: if known && !added {
            cancellation_waiters(records[key].phase)
        } else {
            Seq::empty()
        },
        announce: added,
        start_removal: added && cancelling,
    }
}

/// What those are told who waited for a cancelled setup.
pub open spec fn setup_answer(join: SetupJoin) -> Option<Seq<char>> {
    match join {
        SetupJoin::TaskFailed(text) => Some(text@),
        SetupJoin::Added { owner: Ok(_) } => None,
        SetupJoin::Added { owner: Err(text) } => Some(text@),
        SetupJoin::NotAdded { clean, error } => if clean {
            None
        } else {
            Some(error@)
        },
    }
}

/// The answer says so: success for none, a failed cleanup for a text.
pub open spec fn tells(answer: Result<(), RemoveManagedDisplayError>, text: Option<Seq<char>>) -> bool {
    match text {
        None => answer is Ok,
        Some(text) => answer matches Err(RemoveManagedDisplayError::Cleanup(error)) && error@
            == text,
    }
}

/// The displays that the manager owns.
#[derive(Debug)]
pub struct ManagedDisplays {
    records: OrderedMap<ManagedDisplayRecord>,
}

impl View for ManagedDisplays {
    type V = Map<Seq<char>, RecordView>;

    closed spec fn view(&self) -> Map<Seq<char>, RecordView> {
        records_view(self.records@)
    }
}

/// What is done about the wish for a display.
pub open spec fn setup_decided(
    records: Map<Seq<char>, RecordView>,
    count: nat,
    selection: DeviceSelection,
    result: Result<StartDecision, StartDisplaySetupError>,
) -> bool {
    match selection.defect {
        Some(defect) => result == Err::<StartDecision, _>(
            StartDisplaySetupError::InvalidSelection(defect),
        ),
        None => match result {
            Ok(StartDecision::Existing(display_id)) => claimed_by(
                records,
                target_of(selection@),
                segment_text(display_id@),
            ),
            Ok(StartDecision::Spawn(target)) => {
                &&& target@ == target_of(selection@)
                &&& count < MAX_RETAINED_SETUP_OPERATIONS
                &&& forall|key: Seq<char>|
                    !claimed_by(records, target_of(selection@), key)
            },
            Err(error) => {
                &&& error == StartDisplaySetupError::TooManyOperations
                &&& count >= MAX_RETAINED_SETUP_OPERATIONS
                &&& forall|key: Seq<char>|
                    !claimed_by(records, target_of(selection@), key)
            },
        },
    }
}

/// How a setup that was begun is recorded.
pub open spec fn setup_recorded(
    before: Map<Seq<char>, RecordView>,
    count_before: nat,
    display_id: Seq<u8>,
    target: (Seq<char>, Seq<char>),
    after: Map<Seq<char>, RecordView>,
    count_after: nat,
    result: Result<(), StartDisplaySetupError>,
) -> bool {
    &&& records_wf(after)
    &&& one_claim_each(before) && (forall|key: Seq<char>|
        !claimed_by(before, target, key)) ==> one_claim_each(after)
    &&& if before.dom().contains(segment_text(display_id)) {
        &&& result == Err::<(), _>(StartDisplaySetupError::IdentityCollision)
        &&& after == before
        &&& count_after == count_before
    } else {
        &&& result is Ok
        &&& after == before.insert(
            segment_text(display_id),
            RecordView {
                display_id: display_id,
                target: target,
                phase: PhaseView::SettingUp,
            },
        )
        &&& count_after == count_before + 1
    }
}

/// How an operation is forgotten.
pub open spec fn operation_forgotten(
    before: Map<Seq<char>, RecordView>,
    display_id: Seq<u8>,
    stage: DisplaySetupStage,
    after: Map<Seq<char>, RecordView>,
    forgotten: bool,
) -> bool {
    &&& records_wf(after)
    &&& one_claim_each(before) ==> one_claim_each(after)
    &&& forgotten == (before.dom().contains(segment_text(display_id)) && stage.terminal()
        && before[segment_text(display_id)].phase is Terminal)
    &&& after == (if forgotten {
        before.remove(segment_text(display_id))
    } else {
        before
    })
}

/// How the removal of a display is asked for.
pub open spec fn removal_asked(
    before: Map<Seq<char>, RecordView>,
    display_id: Seq<u8>,
    waiter: u64,
    after: Map<Seq<char>, RecordView>,
    answer: RemovalRequest,
) -> bool {
    &&& records_wf(after)
    &&& one_claim_each(before) ==> one_claim_each(after)
    &&& ({
        let key = segment_text(display_id);
        if before.dom().contains(key) {
            let record = before[key];
            &&& answer == record.phase.removal_answer()
            &&& after == before.insert(
                key,
                RecordView {
                    phase: record.phase.after_removal_request(waiter),
                    ..record
                },
            )
        } else {
            answer == RemovalRequest::Complete && after == before
        }
    })
}

/// How the end of a removal is taken in.
pub open spec fn removal_joined(
    before: Map<Seq<char>, RecordView>,
    display_id: Seq<u8>,
    result: Result<(), String>,
    after: Map<Seq<char>, RecordView>,
    outcome: JoinOutcome,
) -> bool {
    &&& records_wf(after)
    &&& one_claim_each(before) ==> one_claim_each(after)
    &&& after == before.remove(segment_text(display_id))
    &&& ({
        let key = segment_text(display_id);
        let known = before.dom().contains(key);
        outcome@ == (JoinView {
            waiters: if known {
                match before[key].phase {
                    PhaseView::Removing { waiters } => waiters,
                    _ => Seq::empty(),
                }
            } else {
                Seq::empty()
            },
            announce: known,
            start_removal: false,
        })
    })
    &&& match result {
        Ok(_) => outcome.answer is Ok,
        Err(text) => outcome.answer == Err::<(), _>(
            RemoveManagedDisplayError::Cleanup(text),
        ),
    }
}

/// How the failure of a display is recorded.
pub open spec fn failure_recorded(
    before: Map<Seq<char>, RecordView>,
    display_id: Seq<u8>,
    after: Map<Seq<char>, RecordView>,
    retired: bool,
) -> bool {
    &&& records_wf(after)
    &&& one_claim_each(before) ==> one_claim_each(after)
    &&& ({
        let key = segment_text(display_id);
        &&& retired == (before.dom().contains(key) && before[key].phase is Active)
        &&& after == (if retired {
            before.insert(
                key,
                RecordView { phase: PhaseView::Terminal, ..before[key] },
            )
        } else {
            before
        })
    })
}

impl ManagedDisplays {
    /// The number of records.
    pub closed spec fn count(&self) -> nat {
        self.records.keys().len()
    }

    pub fn new() -> (displays: Self)
        ensures
            displays@ == Map::<Seq<char>, RecordView>::empty(),
            displays.count() == 0,
            records_wf(displays@),
            one_claim_each(displays@),
    {
        let displays = ManagedDisplays { records: OrderedMap::new() };
        proof {
            assert(displays@ =~= Map::<Seq<char>, RecordView>::empty());
        }
        displays
    }

    /// Whether the display is known.
    pub fn contains(&self, display_id: CastDisplayId) -> (known: bool)
        ensures
            known == self@.dom().contains(segment_text(display_id@)),
    {
        let key = display_id.object_segment();
        self.records.contains(key.as_str())
    }

    /// Whether the display is there.
    pub fn is_active(&self, display_id: CastDisplayId) -> (active: bool)
        ensures
            active == (self@.dom().contains(segment_text(display_id@)) && self@[segment_text(
                display_id@,
            )].phase is Active),
    {
        let key = display_id.object_segment();
        match self.records.get(key.as_str()) {
            Some(record) => matches!(record.phase, ManagedDisplayPhase::Active),
            None => false,
        }
    }

    /// The displays that are there, in the order of their IDs.
    pub fn active_displays(&self) -> (active: Vec<CastDisplayId>)
        requires
            records_wf(self@),
        ensures
            sorted_keys(segments_of(active@)),
            forall|key: Seq<char>| #[trigger]
                segments_of(active@).contains(key) <==> self@.dom().contains(key)
                    && self@[key].phase is Active,
    {
        let mut active: Vec<CastDisplayId> = Vec::new();
        let count: usize = self.records.len();
        let ghost keys = self.records.keys();
        let mut index: usize = 0;
        proof {
            assert(segments_of(active@) =~= Seq::empty());
        }
        while index < count
            invariant
                index <= count,
                count == keys.len(),
                keys == self.records.keys(),
                sorted_keys(keys),
                records_wf(self@),
                forall|key: Seq<char>| keys.contains(key) <==> self.records@.dom().contains(key),
                sorted_keys(segments_of(active@)),
                forall|i: int|
                    0 <= i < active@.len() ==> exists|j: int|
                        0 <= j < index && #[trigger] keys[j] == #[trigger] segments_of(active@)[i],
                forall|i: int|
                    0 <= i < active@.len() ==> self@[#[trigger] segments_of(
                        active@,
                    )[i]].phase is Active,
                forall|j: int|
                    0 <= j < index && self@[#[trigger] keys[j]].phase is Active ==> segments_of(
                        active@,
                    ).contains(keys[j]),
            decreases count - index,
        {
            let ghost before = segments_of(active@);
            let ghost key = keys[index as int];
            let record = self.records.value_at(index);
            proof {
                assert(self@.dom().contains(key));
                assert(self@[key] == record@);
                assert(key == segment_text(record.display_id@));
            }
            if matches!(record.phase, ManagedDisplayPhase::Active) {
                active.push(record.display_id);
                proof {
                    let after = segments_of(active@);
                    assert(after =~= before.push(key));
                    assert forall|i: int, j: int| 0 <= i < j < after.len() implies
                        crate::order::precedes(#[trigger] after[i], #[trigger] after[j]) by {
                        if j == before.len() {
                            assert(after[i] == before[i]);
                            let k = choose|k: int|
                                0 <= k < index && #[trigger] keys[k] == before[i];
                            assert(crate::order::precedes(keys[k], keys[index as int]));
                        } else {
                            assert(after[i] == before[i] && after[j] == before[j]);
                        }
                    }
                    assert forall|i: int| 0 <= i < after.len() implies exists|j: int|
                        0 <= j < index + 1 && #[trigger] keys[j] == #[trigger] after[i] by {
                        if i < before.len() {
                            assert(after[i] == before[i]);
                            let k = choose|k: int|
                                0 <= k < index && #[trigger] keys[k] == before[i];
                            assert(keys[k] == after[i]);
                        } else {
                            assert(keys[index as int] == after[i]);
                        }
                    }
                    assert forall|i: int| 0 <= i < after.len() implies self@[#[trigger] after[i]].phase is Active by {
                        if i < before.len() {
                            assert(after[i] == before[i]);
                        }
                    }
                    assert forall|j: int|
                        0 <= j < index + 1 && self@[#[trigger] keys[j]].phase is Active implies after.contains(
                        keys[j],
                    ) by {
                        if j < index {
                            assert(before.contains(keys[j]));
                            let i = choose|i: int| 0 <= i < before.len() && before[i] == keys[j];
                            assert(after[i] == keys[j]);
                        } else {
                            assert(after[before.len() as int] == keys[j]);
                        }
                    }
                }
            }
            index += 1;
        }
        proof {
            let found = segments_of(active@);
            assert forall|key: Seq<char>| #[trigger]
                found.contains(key) <==> self@.dom().contains(key) && self@[key].phase is Active by {
                if found.contains(key) {
                    let i = choose|i: int| 0 <= i < found.len() && found[i] == key;
                    let j = choose|j: int| 0 <= j < index && #[trigger] keys[j] == found[i];
                    assert(keys.contains(key));
                }
                if self@.dom().contains(key) && self@[key].phase is Active {
                    assert(keys.contains(key));
                    let j = choose|j: int| 0 <= j < keys.len() && keys[j] == key;
                    assert(self@[keys[j]].phase is Active);
                }
            }
        }
        active
    }

    /// Decide how the setup of a selected device starts.
    pub fn start_managed_display_setup(&self, selection: &DeviceSelection) -> (result: Result<
        StartDecision,
        StartDisplaySetupError,
    >)
        requires
            records_wf(self@),
        ensures
            setup_decided(self@, self.count(), *selection, result),
    {
        if let Some(defect) = &selection.defect {
            return Err(StartDisplaySetupError::InvalidSelection(defect.clone()));
        }
        let target = DeviceTarget::from_selection(selection);
        let count: usize = self.records.len();
        let ghost keys = self.records.keys();
        let mut index: usize = 0;
        while index < count
            invariant
                index <= count,
                count == keys.len(),
                keys == self.records.keys(),
                records_wf(self@),
                selection.defect is None,
                target@ == target_of(selection@),
                forall|key: Seq<char>| keys.contains(key) <==> self.records@.dom().contains(key),
                forall|j: int|
                    0 <= j < index ==> !claimed_by(
                        self@,
                        target_of(selection@),
                        #[trigger] keys[j],
                    ),
            decreases count - index,
        {
            let ghost key = keys[index as int];
            let record = self.records.value_at(index);
            proof {
                assert(self@.dom().contains(key));
                assert(self@[key] == record@);
                assert(key == segment_text(record.display_id@));
            }
            if record.target.same(&target) && !matches!(record.phase, ManagedDisplayPhase::Terminal) {
                return Ok(StartDecision::Existing(record.display_id));
            }
            index += 1;
        }
        proof {
            assert forall|key: Seq<char>| !claimed_by(self@, target_of(selection@), key) by {
                if self@.dom().contains(key) {
                    assert(keys.contains(key));
                    let j = choose|j: int| 0 <= j < keys.len() && keys[j] == key;
                    assert(!claimed_by(self@, target_of(selection@), keys[j]));
                }
            }
        }
        if count >= MAX_RETAINED_SETUP_OPERATIONS {
            return Err(StartDisplaySetupError::TooManyOperations);
        }
        Ok(StartDecision::Spawn(target))
    }

    /// Record an operation that was made for a free device.
    pub fn setup_spawned(&mut self, display_id: CastDisplayId, target: DeviceTarget) -> (result: Result<
        (),
        StartDisplaySetupError,
    >)
        requires
            records_wf(old(self)@),
        ensures
            setup_recorded(
                old(self)@,
                old(self).count(),
                display_id@,
                target@,
                final(self)@,
                final(self).count(),
                result,
            ),
    {
        let key = display_id.object_segment();
        let ghost before = self@;
        if self.records.contains(key.as_str()) {
            return Err(StartDisplaySetupError::IdentityCollision);
        }
        let record = ManagedDisplayRecord {
            display_id,
            target,
            phase: ManagedDisplayPhase::SettingUp,
        };
        let ghost view = record@;
        self.records.insert(key.as_str(), record);
        proof {
            assert(self@ =~= before.insert(key@, view));
            if one_claim_each(before) && (forall|other: Seq<char>|
                !claimed_by(before, view.target, other)) {
                assert forall|left: Seq<char>, right: Seq<char>|
                    #![trigger self@[left], self@[right]]
                    self@.dom().contains(left) && self@.dom().contains(right)
                        && self@[left].target == self@[right].target && !(
                    self@[left].phase is Terminal) && !(
                    self@[right].phase is Terminal) implies left == right by {
                    assert(!claimed_by(before, view.target, left));
                    assert(!claimed_by(before, view.target, right));
                    if left != key@ && right != key@ {
                        assert(before[left] == self@[left] && before[right] == self@[right]);
                    }
                }
            }
        }
        Ok(())
    }

    /// Whether a setup is to be cancelled: it is known, and under way.
    pub fn cancel_display_setup(&self, display_id: CastDisplayId, stage: DisplaySetupStage) -> (cancel:
        bool)
        ensures
            cancel == (self@.dom().contains(segment_text(display_id@)) && !stage.terminal()),
    {
        self.contains(display_id) && !stage.is_terminal()
    }

    /// Forget an operation that has ended and left no display.
    pub fn forget_display_setup_operation(
        &mut self,
        display_id: CastDisplayId,
        stage: DisplaySetupStage,
    ) -> (forgotten: bool)
        requires
            records_wf(old(self)@),
        ensures
            operation_forgotten(old(self)@, display_id@, stage, final(self)@, forgotten),
    {
        let key = display_id.object_segment();
        let ghost before = self@;
        let forgettable = match self.records.get(key.as_str()) {
            Some(record) => stage.is_terminal() && matches!(
                record.phase,
                ManagedDisplayPhase::Terminal
            ),
            None => false,
        };
        if forgettable {
            self.records.remove(key.as_str());
            proof {
                assert(self@ =~= before.remove(key@));
                fewer_records_stay_good(before, key@);
            }
        }
        forgettable
    }

    /// Note one who waits for the removal of a display. Removal is idempotent,
    /// also after it has succeeded.
    pub fn remove_display(&mut self, display_id: CastDisplayId, waiter: u64) -> (answer:
        RemovalRequest)
        requires
            records_wf(old(self)@),
        ensures
            removal_asked(old(self)@, display_id@, waiter, final(self)@, answer),
    {
        let key = display_id.object_segment();
        let ghost before = self@;
        match self.records.remove(key.as_str()) {
            None => {
                proof {
                    assert(self@ =~= before);
                }
                RemovalRequest::Complete
            },
            Some(mut record) => {
                let answer = record.request_removal(waiter);
                let ghost view = record@;
                self.records.insert(key.as_str(), record);
                proof {
                    assert(self@ =~= before.insert(key@, view));
                    changed_phases_stay_good(before, key@, view);
                }
                answer
            },
        }
    }

    /// Take in the end of a setup.
    pub fn handle_setup_join(&mut self, display_id: CastDisplayId, join: SetupJoin) -> (outcome:
        JoinOutcome)
        requires
            records_wf(old(self)@),
        ensures
            records_wf(final(self)@),
            one_claim_each(old(self)@) && !(old(self)@.dom().contains(segment_text(display_id@))
                && old(self)@[segment_text(display_id@)].phase is Terminal) ==> one_claim_each(
                final(self)@,
            ),
            final(self)@ == setup_joined(old(self)@, segment_text(display_id@), join),
            outcome@ == setup_outcome(old(self)@, segment_text(display_id@), join),
            tells(outcome.answer, setup_answer(join)),
    {
        let key = display_id.object_segment();
        let ghost before = self@;
        let ghost ended = join;
        let (failed, added, answer) = match join {
            SetupJoin::TaskFailed(text) => (
                true,
                false,
                Err(RemoveManagedDisplayError::Cleanup(text)),
            ),
            SetupJoin::Added { owner: Ok(()) } => (false, true, Ok(())),
            SetupJoin::Added { owner: Err(text) } => (
                false,
                false,
                Err(RemoveManagedDisplayError::Cleanup(text)),
            ),
            SetupJoin::NotAdded { clean, error } => (
                false,
                false,
                if clean {
                    Ok(())
                } else {
                    Err(RemoveManagedDisplayError::Cleanup(error))
                },
            ),
        };
        let mut waiters: Vec<u64> = Vec::new();
        let mut announce = false;
        let mut start_removal = false;
        match self.records.remove(key.as_str()) {
            None => {
                proof {
                    assert(self@ =~= before);
                    assert(waiters@ =~= Seq::empty());
                }
            },
            Some(record) => {
                let ghost old_view = record@;
                let display_id = record.display_id;
                let target = record.target;
                let mut cancelled: Vec<u64> = Vec::new();
                let mut cancelling = false;
                if let ManagedDisplayPhase::CancellingSetup { waiters: waiting } = record.phase {
                    cancelled = waiting;
                    cancelling = true;
                }
                proof {
                    assert(cancelled@ =~= cancellation_waiters(old_view.phase));
                    assert(waiters@ =~= Seq::empty());
                }
                if failed {
                    waiters = cancelled;
                    proof {
                        assert(self@ =~= before.remove(key@));
                        fewer_records_stay_good(before, key@);
                    }
                } else {
                    let phase = if added {
                        announce = true;
                        if cancelling {
                            start_removal = true;
                            ManagedDisplayPhase::Removing { waiters: cancelled }
                        } else {
                            ManagedDisplayPhase::Active
                        }
                    } else {
                        waiters = cancelled;
                        ManagedDisplayPhase::Terminal
                    };
                    let record = ManagedDisplayRecord { display_id, target, phase };
                    let ghost view = record@;
                    self.records.insert(key.as_str(), record);
                    proof {
                        assert(self@ =~= before.insert(key@, view));
                        changed_phases_stay_good(before, key@, view);
                    }
                }
            },
        }
        JoinOutcome { waiters, answer, announce, start_removal }
    }

    /// Take in the end of a removal.
    pub fn handle_removal_join(&mut self, display_id: CastDisplayId, result: Result<(), String>) -> (
    outcome: JoinOutcome)
        requires
            records_wf(old(self)@),
        ensures
            removal_joined(old(self)@, display_id@, result, final(self)@, outcome),
    {
        let key = display_id.object_segment();
        let ghost before = self@;
        let answer = match result {
            Ok(()) => Ok(()),
            Err(text) => Err(RemoveManagedDisplayError::Cleanup(text)),
        };
        let mut waiters: Vec<u64> = Vec::new();
        let mut announce = false;
        proof {
            assert(waiters@ =~= Seq::empty());
        }
        let removed = self.records.remove(key.as_str());
        proof {
            assert(self@ =~= before.remove(key@));
            fewer_records_stay_good(before, key@);
        }
        if let Some(record) = removed {
            announce = true;
            if let ManagedDisplayPhase::Removing { waiters: waiting } = record.phase {
                waiters = waiting;
            }
        }
        JoinOutcome { waiters, answer, announce, start_removal: false }
    }

    /// Take in that a display has ended by itself; true if it was there, and is
    /// to be announced as removed.
    pub fn display_failed(&mut self, display_id: CastDisplayId) -> (retired: bool)
        requires
            records_wf(old(self)@),
        ensures
            failure_recorded(old(self)@, display_id@, final(self)@, retired),
    {
        let key = display_id.object_segment();
        let ghost before = self@;
        match self.records.remove(key.as_str()) {
            None => {
                proof {
                    assert(self@ =~= before);
                }
                false
            },
            Some(mut record) => {
                let retired = record.retire_active();
                let ghost view = record@;
                self.records.insert(key.as_str(), record);
                proof {
                    assert(self@ =~= before.insert(key@, view));
                    if !retired {
                        assert(before.insert(key@, view) =~= before);
                    }
                    changed_phases_stay_good(before, key@, view);
                }
                retired
            },
        }
    }
}

/// The path segments of several identities.
pub open spec fn segments_of(ids: Seq<CastDisplayId>) -> Seq<Seq<char>> {
    ids.map_values(|id: CastDisplayId| segment_text(id@))
}

proof fn fewer_records_stay_good(records: Map<Seq<char>, RecordView>, key: Seq<char>)
    requires
        records_wf(records),
    ensures
        records_wf(records.remove(key)),
        one_claim_each(records) ==> one_claim_each(records.remove(key)),
{
    let fewer = records.remove(key);
    if one_claim_each(records) {
        assert forall|left: Seq<char>, right: Seq<char>|
            #![trigger fewer[left], fewer[right]]
            fewer.dom().contains(left) && fewer.dom().contains(right) && fewer[left].target
                == fewer[right].target && !(fewer[left].phase is Terminal) && !(
            fewer[right].phase is Terminal) implies left == right by {
            assert(records[left] == fewer[left] && records[right] == fewer[right]);
        }
    }
}

proof fn changed_phases_stay_good(
    records: Map<Seq<char>, RecordView>,
    key: Seq<char>,
    record: RecordView,
)
    requires
        records_wf(records),
        records.dom().contains(key),
        record.display_id == records[key].display_id,
        record.target == records[key].target,
    ensures
        records_wf(records.insert(key, record)),
        one_claim_each(records) && (records[key].phase is Terminal ==> record.phase is Terminal)
            ==> one_claim_each(records.insert(key, record)),
{
    let after = records.insert(key, record);
    if one_claim_each(records) && (records[key].phase is Terminal ==> record.phase is Terminal) {
        assert forall|left: Seq<char>, right: Seq<char>|
            #![trigger after[left], after[right]]
            after.dom().contains(left) && after.dom().contains(right) && after[left].target
                == after[right].target && !(after[left].phase is Terminal) && !(
            after[right].phase is Terminal) implies left == right by {
            assert(records[left].target == after[left].target);
            assert(records[right].target == after[right].target);
            assert(!(records[left].phase is Terminal));
            assert(!(records[right].phase is Terminal));
        }
    }
}

/// Whoever waits for a display is answered exactly when its task ends: a
/// request adds one to those who wait, and nothing else is lost.
pub proof fn removal_requests_are_kept(phase: PhaseView, waiter: u64)
    ensures
        phase.removal_answer() != RemovalRequest::Complete ==> phase.after_removal_request(
            waiter,
        ).waiting() == phase.waiting().push(waiter),
        phase.removal_answer() == RemovalRequest::Complete ==> phase.after_removal_request(waiter)
            == phase,
{
    assert(Seq::<u64>::empty().push(waiter) =~= seq![waiter]);
}

/// A setup that ends hands those who wait either to the removal or to their
/// answer.
pub proof fn setup_waiters_are_handed_on(
    records: Map<Seq<char>, RecordView>,
    key: Seq<char>,
    join: SetupJoin,
)
    requires
        records.dom().contains(key),
        records[key].phase is CancellingSetup,
    ensures
        ({
            let waiters = records[key].phase->CancellingSetup_waiters;
            let after = setup_joined(records, key, join);
            let outcome = setup_outcome(records, key, join);
            if outcome.start_removal {
                after.dom().contains(key) && after[key].phase.waiting() == waiters
                    && outcome.waiters.len() == 0
            } else {
                outcome.waiters == waiters
            }
        }),
{
}

/// A device has one display at a time: a second wish for it gets the operation that is
/// there. A new one is begun for the device that was selected, while there is room for 128
/// operations.
pub proof fn devices_get_one_display(
    records: Map<Seq<char>, RecordView>,
    count: nat,
    selection: DeviceSelection,
    result: Result<StartDecision, StartDisplaySetupError>,
    key: Seq<char>,
)
    requires
        setup_decided(records, count, selection, result),
    ensures
        selection.defect is Some ==> result is Err && result->Err_0 is InvalidSelection,
        selection.defect is None && records.dom().contains(key) && records[key].target == (
            selection.backend_id@,
            selection.device_id@,
        ) && !(records[key].phase is Terminal) ==> result is Ok && result->Ok_0 is Existing,
        result is Ok && result->Ok_0 is Existing ==> ({
            let held = segment_text(result->Ok_0->Existing_0@);
            &&& records.dom().contains(held)
            &&& records[held].target == (selection.backend_id@, selection.device_id@)
            &&& !(records[held].phase is Terminal)
        }),
        result is Ok && result->Ok_0 is Spawn ==> count < 128 && result->Ok_0->Spawn_0.backend_id@
            == selection.backend_id@ && result->Ok_0->Spawn_0.device_id@ == selection.device_id@,
        result is Err && result->Err_0 is TooManyOperations ==> count >= 128,
{
    if records.dom().contains(key) && records[key].target == (
        selection.backend_id@,
        selection.device_id@,
    ) && !(records[key].phase is Terminal) {
        assert(claimed_by(records, target_of(selection@), key));
    }
}

/// A setup that was begun is recorded under its identity, for its device, as one that is
/// under way; an identity that is taken is refused. No other record changes.
pub proof fn begun_setups_are_recorded(
    before: Map<Seq<char>, RecordView>,
    count_before: nat,
    display_id: Seq<u8>,
    target: (Seq<char>, Seq<char>),
    after: Map<Seq<char>, RecordView>,
    count_after: nat,
    result: Result<(), StartDisplaySetupError>,
    other: Seq<char>,
)
    requires
        setup_recorded(before, count_before, display_id, target, after, count_after, result),
        other != segment_text(display_id),
    ensures
        result is Err <==> before.dom().contains(segment_text(display_id)),
        result is Err ==> after == before && count_after == count_before && result->Err_0
            is IdentityCollision,
        after.dom().contains(segment_text(display_id)),
        result is Ok ==> {
            let record = after[segment_text(display_id)];
            &&& record.display_id == display_id
            &&& record.target == target
            &&& record.phase is SettingUp
            &&& count_after == count_before + 1
        },
        after.dom().contains(other) <==> before.dom().contains(other),
        before.dom().contains(other) ==> after[other] == before[other],
{
}

/// Only an operation that has ended, of a display that is gone, is forgotten; nothing else
/// is.
pub proof fn ended_operations_are_forgotten(
    before: Map<Seq<char>, RecordView>,
    display_id: Seq<u8>,
    stage: DisplaySetupStage,
    after: Map<Seq<char>, RecordView>,
    forgotten: bool,
    other: Seq<char>,
)
    requires
        operation_forgotten(before, display_id, stage, after, forgotten),
        other != segment_text(display_id),
    ensures
        forgotten ==> !after.dom().contains(segment_text(display_id)),
        !forgotten ==> after == before,
        forgotten <==> before.dom().contains(segment_text(display_id)) && before[segment_text(
            display_id,
        )].phase is Terminal && (stage is Added || stage is Cancelled || stage is Failed),
        after.dom().contains(other) <==> before.dom().contains(other),
        before.dom().contains(other) ==> after[other] == before[other],
{
}

/// A removal begins at once on an active display, cancels a setup that is under way, waits
/// for what has begun already, and is done where there is nothing. Whoever asked is among
/// those that wait. The display stays the one of its device, and no other changes.
pub proof fn removals_begin_or_wait(
    before: Map<Seq<char>, RecordView>,
    display_id: Seq<u8>,
    waiter: u64,
    after: Map<Seq<char>, RecordView>,
    answer: RemovalRequest,
    other: Seq<char>,
)
    requires
        removal_asked(before, display_id, waiter, after, answer),
        other != segment_text(display_id),
    ensures
        ({
            let key = segment_text(display_id);
            let known = before.dom().contains(key);
            &&& answer is Start <==> known && before[key].phase is Active
            &&& answer == (RemovalRequest::Queued { cancel_setup: true }) <==> known
                && before[key].phase is SettingUp
            &&& answer == (RemovalRequest::Queued { cancel_setup: false }) <==> known && (
            before[key].phase is CancellingSetup || before[key].phase is Removing)
            &&& answer is Complete <==> !known || before[key].phase is Terminal
            &&& answer is Complete ==> after =~= before
            &&& !(answer is Complete) ==> {
                &&& after[key].phase.waiting().last() == waiter
                &&& after[key].phase.waiting().len() == before[key].phase.waiting().len() + 1
                &&& after[key].display_id == before[key].display_id
                &&& after[key].target == before[key].target
                &&& after[key].phase is CancellingSetup <==> before[key].phase is SettingUp
                    || before[key].phase is CancellingSetup
                &&& after[key].phase is Removing <==> before[key].phase is Active
                    || before[key].phase is Removing
            }
            &&& after.dom().contains(other) <==> before.dom().contains(other)
            &&& before.dom().contains(other) ==> after[other] == before[other]
        }),
{
}

/// A display whose setup went well is active and is announced, unless its removal was asked
/// for: then it is announced and removed. Without a display the operation has ended, or is
/// gone with its task.
pub proof fn ended_setups_leave_a_display_or_none(
    records: Map<Seq<char>, RecordView>,
    key: Seq<char>,
    join: SetupJoin,
    other: Seq<char>,
)
    requires
        records.dom().contains(key),
        other != key,
    ensures
        ({
            let after = setup_joined(records, key, join);
            let outcome = setup_outcome(records, key, join);
            let added = join is Added && join->owner is Ok;
            &&& outcome.announce <==> added
            &&& outcome.start_removal <==> added && records[key].phase is CancellingSetup
            &&& after.dom().contains(key) <==> !(join is TaskFailed)
            &&& added ==> (after[key].phase is Removing <==> records[key].phase is CancellingSetup)
            &&& added ==> (after[key].phase is Active <==> !(records[key].phase
                is CancellingSetup))
            &&& !added && !(join is TaskFailed) ==> after[key].phase is Terminal
            &&& after.dom().contains(key) ==> after[key].display_id == records[key].display_id
                && after[key].target == records[key].target
            &&& after.dom().contains(other) <==> records.dom().contains(other)
            &&& records.dom().contains(other) ==> after[other] == records[other]
            &&& setup_answer(join) is None <==> added || (join is NotAdded && join->clean)
        }),
{
}

/// Those who waited for a cancelled setup hear of a failure with its reason; a setup that
/// cleaned up after itself is none.
pub proof fn waiters_hear_why_a_setup_failed(
    answer: Result<(), RemoveManagedDisplayError>,
    join: SetupJoin,
)
    requires
        tells(answer, setup_answer(join)),
    ensures
        join matches SetupJoin::TaskFailed(text) ==> answer is Err && answer->Err_0 is Cleanup
            && answer->Err_0->Cleanup_0@ == text@,
        join matches SetupJoin::NotAdded { clean, error } ==> (clean <==> answer is Ok) && (!clean
            ==> answer->Err_0 is Cleanup && answer->Err_0->Cleanup_0@ == error@),
        join matches SetupJoin::Added { owner } ==> (owner is Ok <==> answer is Ok) && (owner is Err
            ==> answer->Err_0 is Cleanup && answer->Err_0->Cleanup_0@ == owner->Err_0@),
{
}

/// A removed display is gone, whatever its removal came to; it is announced if it was
/// known, and those who waited are told how it went.
pub proof fn removed_displays_are_gone(
    before: Map<Seq<char>, RecordView>,
    display_id: Seq<u8>,
    result: Result<(), String>,
    after: Map<Seq<char>, RecordView>,
    outcome: JoinOutcome,
    other: Seq<char>,
)
    requires
        removal_joined(before, display_id, result, after, outcome),
        other != segment_text(display_id),
    ensures
        ({
            let key = segment_text(display_id);
            &&& !after.dom().contains(key)
            &&& outcome.announce <==> before.dom().contains(key)
            &&& !outcome.start_removal
            &&& before.dom().contains(key) && before[key].phase is Removing ==> outcome.waiters@
                == before[key].phase.waiting()
            &&& !(before.dom().contains(key) && before[key].phase is Removing)
                ==> outcome.waiters@.len() == 0
            &&& result is Ok <==> outcome.answer is Ok
            &&& result is Err ==> outcome.answer->Err_0 == RemoveManagedDisplayError::Cleanup(
                result->Err_0,
            )
            &&& after.dom().contains(other) <==> before.dom().contains(other)
            &&& before.dom().contains(other) ==> after[other] == before[other]
        }),
{
}

/// A display that failed ends its operation if it was active; otherwise nothing changes.
pub proof fn failed_displays_end_their_operation(
    before: Map<Seq<char>, RecordView>,
    display_id: Seq<u8>,
    after: Map<Seq<char>, RecordView>,
    retired: bool,
    other: Seq<char>,
)
    requires
        failure_recorded(before, display_id, after, retired),
        other != segment_text(display_id),
    ensures
        ({
            let key = segment_text(display_id);
            &&& retired <==> before.dom().contains(key) && before[key].phase is Active
            &&& !retired ==> after == before
            &&& retired ==> after.dom().contains(key) && after[key].phase is Terminal
                && after[key].display_id == before[key].display_id && after[key].target
                == before[key].target
            &&& after.dom().contains(other) <==> before.dom().contains(other)
            &&& before.dom().contains(other) ==> after[other] == before[other]
        }),
{
}

/// A target is the backend and the device of its selection; a record shows all three of its
/// parts.
pub proof fn records_show_their_parts(record: ManagedDisplayRecord, selection: DeviceSelection)
    ensures
        target_of(selection@) == (selection.backend_id@, selection.device_id@),
        record@.display_id == record.display_id.bytes@,
        record@.target == (record.target.backend_id@, record.target.device_id@),
        record@.phase is SettingUp <==> record.phase is SettingUp,
        record@.phase is CancellingSetup <==> record.phase is CancellingSetup,
        record@.phase is Active <==> record.phase is Active,
        record@.phase is Removing <==> record.phase is Removing,
        record@.phase is Terminal <==> record.phase is Terminal,
        record.phase matches ManagedDisplayPhase::Removing { waiters } ==> record@.phase.waiting()
            == waiters@,
        record.phase matches ManagedDisplayPhase::CancellingSetup { waiters }
            ==> record@.phase.waiting() == waiters@,
{
}

} // verus!
