//! The end of the manager.

use crate::device_session_port::DeviceSessionStopReason;
use crate::display::{id_text, segment_text, CastDisplayId, DisplaySetupStage};
use crate::manager::backend_worker::{
    all_errors, all_reports, collect_worker_results, texts, ManagerShutdownReport, WorkerResult,
};
use crate::manager::display_lifecycle::{
    records_wf, segments_of, setup_answer, setup_joined, setup_outcome, tells, JoinOutcome,
    JoinView, ManagedDisplays, RecordView, SetupJoin,
};
use crate::manager::runtime::removal_outcome;
use crate::manager::{ManagerTaskError, RemoveManagedDisplayError};
use crate::ordered::sorted_keys;
use crate::text::concat;
use vstd::prelude::*;

verus! {

/// What came of a removal at the end of the manager.
#[derive(Debug, PartialEq, Eq)]
pub enum FinalRemoval {
    Ended { display_id: CastDisplayId, result: Result<(), String> },
    /// The task of the removal failed.
    TaskFailed { task: String, error: String },
}

/// What a removal that failed is reported under, and the error.
pub struct RemovalError {
    pub key: Seq<char>,
    pub error: Seq<char>,
}

/// How a removal is reported, if it failed.
pub open spec fn removal_error(removal: FinalRemoval) -> Option<RemovalError> {
    match removal {
        FinalRemoval::Ended { display_id, result: Ok(_) } => None,
        FinalRemoval::Ended { display_id, result: Err(error) } => Some(
            RemovalError { key: "display:"@ + id_text(display_id@), error: error@ },
        ),
        FinalRemoval::TaskFailed { task, error } => Some(
            RemovalError { key: "display-cleanup-task:"@ + task@, error: error@ },
        ),
    }
}

/// The errors with what came of removals.
pub open spec fn with_removals(
    errors: Map<Seq<char>, Seq<char>>,
    removals: Seq<FinalRemoval>,
) -> Map<Seq<char>, Seq<char>>
    decreases removals.len(),
{
    if removals.len() == 0 {
        errors
    } else {
        let earlier = with_removals(errors, removals.drop_last());
        match removal_error(removals.last()) {
            None => earlier,
            Some(failed) => earlier.insert(failed.key, failed.error),
        }
    }
}

/// Add to a report what came of the displays that were there at the end.
pub fn shutdown_displays(report: &mut ManagerShutdownReport, removals: &Vec<FinalRemoval>)
    ensures
        final(report).backend_reports@ == old(report).backend_reports@,
        texts(final(report).errors@) == with_removals(texts(old(report).errors@), removals@),
{
    let ghost all = removals@;
    let ghost errors = texts(report.errors@);
    let ghost reports = report.backend_reports@;
    let mut index: usize = 0;
    proof {
        assert(all.take(0) =~= Seq::empty());
    }
    while index < removals.len()
        invariant
            index <= removals@.len(),
            removals@ == all,
            report.backend_reports@ == reports,
            texts(report.errors@) == with_removals(errors, all.take(index as int)),
        decreases removals@.len() - index,
    {
        proof {
            let upto = all.take(index + 1);
            assert(upto.drop_last() =~= all.take(index as int));
            assert(upto.last() == all[index as int]);
        }
        match &removals[index] {
            FinalRemoval::Ended { display_id, result } => {
                if let Err(error) = result {
                    let key = concat("display:", display_id.to_text().as_str());
                    report.note_error(key.as_str(), error.clone());
                }
            },
            FinalRemoval::TaskFailed { task, error } => {
                let key = concat("display-cleanup-task:", task.as_str());
                report.note_error(key.as_str(), error.clone());
            },
        }
        index += 1;
    }
    proof {
        assert(all.take(index as int) =~= all);
    }
}

/// What the manager waits for while it ends.
#[derive(Debug, Clone, Copy, PartialEq, Eq, Structural)]
pub enum ShutdownPhase {
    /// The setups that are under way.
    Setups,
    /// The removals that are under way.
    Removals,
    /// The removals of the displays that were still there.
    Displays,
    /// The workers of the backends.
    Workers,
    Ended,
}

/// The manager while it ends.
#[derive(Debug)]
pub struct ManagerShutdown {
    pub phase: ShutdownPhase,
    /// Whether the owner waits for the report, or why the manager failed.
    pub outcome: Result<bool, ManagerTaskError>,
    /// What came of the displays that were still there.
    pub removals: Vec<FinalRemoval>,
}

/// The contents of a [`ManagerShutdown`].
pub struct ShutdownView {
    pub phase: ShutdownPhase,
    pub outcome: Result<bool, ManagerTaskError>,
    pub removals: Seq<FinalRemoval>,
}

impl View for ManagerShutdown {
    type V = ShutdownView;

    open spec fn view(&self) -> ShutdownView {
        ShutdownView { phase: self.phase, outcome: self.outcome, removals: self.removals@ }
    }
}

/// What happens while the manager ends.
#[derive(Debug)]
pub enum ShutdownEvent {
    /// A setup ended, or none is left.
    Setup(Option<(CastDisplayId, SetupJoin)>),
    /// A removal ended, or none is left.
    Removal(Option<(CastDisplayId, Result<(), String>)>),
    /// The removal of a display that was still there ended, or none is left.
    Display(Option<FinalRemoval>),
    /// What came of each worker, in time or not.
    Workers(Vec<(String, WorkerResult)>),
}

/// How the manager goes on ending.
#[derive(Debug)]
pub enum ShutdownFlow {
    /// Answer those who waited, and start the removal where told.
    Joined(JoinOutcome),
    AwaitRemovals,
    /// Remove the displays that are still there.
    Remove { displays: Vec<CastDisplayId>, reason: DeviceSessionStopReason },
    Wait,
    EndWorkers,
    /// The manager has ended; the owner waits for the report, or nobody does.
    Report { report: ManagerShutdownReport, waiting: bool },
    /// The manager has ended because it failed.
    Fail(ManagerTaskError),
}

/// The setups that are cancelled: they are known, and under way.
pub open spec fn to_cancel(
    records: Map<Seq<char>, RecordView>,
    stages: Seq<(CastDisplayId, DisplaySetupStage)>,
) -> Seq<CastDisplayId>
    decreases stages.len(),
{
    if stages.len() == 0 {
        Seq::empty()
    } else {
        let earlier = to_cancel(records, stages.drop_last());
        let (display_id, stage) = stages.last();
        if records.dom().contains(segment_text(display_id@)) && !stage.terminal() {
            earlier.push(display_id)
        } else {
            earlier
        }
    }
}

/// The displays are those that are there, in the order of their IDs.
pub open spec fn all_there(
    records: Map<Seq<char>, RecordView>,
    displays: Seq<CastDisplayId>,
) -> bool {
    &&& sorted_keys(segments_of(displays))
    &&& forall|key: Seq<char>| #[trigger]
        segments_of(displays).contains(key) <==> records.dom().contains(key)
            && records[key].phase is Active
}

/// What is left to do at a join while the manager ends: nothing is announced.
pub open spec fn unannounced(outcome: JoinView) -> JoinView {
    JoinView { announce: false, ..outcome }
}

/// The report is the one that the workers and the displays are due.
pub open spec fn reports_all(
    report: ManagerShutdownReport,
    results: Seq<(String, WorkerResult)>,
    removals: Seq<FinalRemoval>,
) -> bool {
    &&& report.backend_reports@ == all_reports(results)
    &&& texts(report.errors@) == with_removals(all_errors(results), removals)
}

/// The manager took an event in as it is due while it ends. What it does not
/// wait for changes nothing.
pub open spec fn shutdown_reacts(
    before: ShutdownView,
    records: Map<Seq<char>, RecordView>,
    event: ShutdownEvent,
    after: ShutdownView,
    records_after: Map<Seq<char>, RecordView>,
    flow: ShutdownFlow,
) -> bool {
    match (before.phase, event) {
        (ShutdownPhase::Setups, ShutdownEvent::Setup(Some((display_id, join)))) => {
            let key = segment_text(display_id@);
            &&& after == before
            &&& records_after == setup_joined(records, key, join)
            &&& flow matches ShutdownFlow::Joined(outcome)
            &&& outcome@ == unannounced(setup_outcome(records, key, join))
            &&& tells(outcome.answer, setup_answer(join))
        },
        (ShutdownPhase::Setups, ShutdownEvent::Setup(None)) => {
            &&& after == (ShutdownView { phase: ShutdownPhase::Removals, ..before })
            &&& records_after == records
            &&& flow == ShutdownFlow::AwaitRemovals
        },
        (ShutdownPhase::Removals, ShutdownEvent::Removal(Some((display_id, result)))) => {
            let key = segment_text(display_id@);
            &&& after == before
            &&& records_after == records.remove(key)
            &&& flow matches ShutdownFlow::Joined(outcome)
            &&& outcome@ == unannounced(removal_outcome(records, key))
            &&& match result {
                Ok(_) => outcome.answer is Ok,
                Err(text) => outcome.answer == Err::<(), _>(
                    RemoveManagedDisplayError::Cleanup(text),
                ),
            }
        },
        (ShutdownPhase::Removals, ShutdownEvent::Removal(None)) => {
            &&& after == (ShutdownView { phase: ShutdownPhase::Displays, ..before })
            &&& records_after == Map::<Seq<char>, RecordView>::empty()
            &&& flow matches ShutdownFlow::Remove { displays, reason }
            &&& all_there(records, displays@)
            &&& reason == DeviceSessionStopReason::DaemonShutdown
        },
        (ShutdownPhase::Displays, ShutdownEvent::Display(Some(removal))) => {
            &&& after == (ShutdownView { removals: before.removals.push(removal), ..before })
            &&& records_after == records
            &&& flow == ShutdownFlow::Wait
        },
        (ShutdownPhase::Displays, ShutdownEvent::Display(None)) => {
            &&& after == (ShutdownView { phase: ShutdownPhase::Workers, ..before })
            &&& records_after == records
            &&& flow == ShutdownFlow::EndWorkers
        },
        (ShutdownPhase::Workers, ShutdownEvent::Workers(results)) => {
            &&& after == (ShutdownView { phase: ShutdownPhase::Ended, ..before })
            &&& records_after == records
            &&& match before.outcome {
                Ok(expected) => flow matches ShutdownFlow::Report { report, waiting } && waiting
                    == expected && reports_all(report, results@, before.removals),
                Err(error) => flow == ShutdownFlow::Fail(error),
            }
        },
        _ => after == before && records_after == records && flow == ShutdownFlow::Wait,
    }
}

impl ManagerShutdown {
    /// Begin to end the manager: which setups to cancel. `stages` holds how far
    /// each setup is.
    pub fn begin(
        records: &ManagedDisplays,
        outcome: Result<bool, ManagerTaskError>,
        stages: &Vec<(CastDisplayId, DisplaySetupStage)>,
    ) -> (result: (Self, Vec<CastDisplayId>))
        ensures
            result.0@ == (ShutdownView {
                phase: ShutdownPhase::Setups,
                outcome,
                removals: Seq::empty(),
            }),
            result.1@ == to_cancel(records@, stages@),
    {
        let mut cancelled: Vec<CastDisplayId> = Vec::new();
        let mut index: usize = 0;
        proof {
            assert(stages@.take(0) =~= Seq::empty());
        }
        while index < stages.len()
            invariant
                index <= stages@.len(),
                cancelled@ == to_cancel(records@, stages@.take(index as int)),
            decreases stages@.len() - index,
        {
            proof {
                let upto = stages@.take(index + 1);
                assert(upto.drop_last() =~= stages@.take(index as int));
                assert(upto.last() == stages@[index as int]);
            }
            let (display_id, stage) = stages[index];
            if records.cancel_display_setup(display_id, stage) {
                cancelled.push(display_id);
            }
            index += 1;
        }
        proof {
            assert(stages@.take(index as int) =~= stages@);
        }
        let removals: Vec<FinalRemoval> = Vec::new();
        (ManagerShutdown { phase: ShutdownPhase::Setups, outcome, removals }, cancelled)
    }

    /// React to one event.
    pub fn proceed(&mut self, records: &mut ManagedDisplays, event: ShutdownEvent) -> (flow:
        ShutdownFlow)
        requires
            records_wf(old(records)@),
        ensures
            records_wf(final(records)@),
            shutdown_reacts(
                old(self)@,
                old(records)@,
                event,
                final(self)@,
                final(records)@,
                flow,
            ),
    {
        match (self.phase, event) {
            (ShutdownPhase::Setups, ShutdownEvent::Setup(Some((display_id, join)))) => {
                let mut outcome = records.handle_setup_join(display_id, join);
                outcome.announce = false;
                ShutdownFlow::Joined(outcome)
            },
            (ShutdownPhase::Setups, ShutdownEvent::Setup(None)) => {
                self.phase = ShutdownPhase::Removals;
                ShutdownFlow::AwaitRemovals
            },
            (ShutdownPhase::Removals, ShutdownEvent::Removal(Some((display_id, result)))) => {
                let mut outcome = records.handle_removal_join(display_id, result);
                outcome.announce = false;
                ShutdownFlow::Joined(outcome)
            },
            (ShutdownPhase::Removals, ShutdownEvent::Removal(None)) => {
                let displays = records.active_displays();
                *records = ManagedDisplays::new();
                self.phase = ShutdownPhase::Displays;
                ShutdownFlow::Remove { displays, reason: DeviceSessionStopReason::DaemonShutdown }
            },
            (ShutdownPhase::Displays, ShutdownEvent::Display(Some(removal))) => {
                self.removals.push(removal);
                ShutdownFlow::Wait
            },
            (ShutdownPhase::Displays, ShutdownEvent::Display(None)) => {
                self.phase = ShutdownPhase::Workers;
                ShutdownFlow::EndWorkers
            },
            (ShutdownPhase::Workers, ShutdownEvent::Workers(results)) => {
                self.phase = ShutdownPhase::Ended;
                match &self.outcome {
                    Ok(waiting) => {
                        let mut report = collect_worker_results(results);
                        shutdown_displays(&mut report, &self.removals);
                        ShutdownFlow::Report { report, waiting: *waiting }
                    },
                    Err(ManagerTaskError::EventConsumerStopped) => ShutdownFlow::Fail(
                        ManagerTaskError::EventConsumerStopped,
                    ),
                    Err(ManagerTaskError::Aggregate(text)) => ShutdownFlow::Fail(
                        ManagerTaskError::Aggregate(text.clone()),
                    ),
                }
            },
            _ => ShutdownFlow::Wait,
        }
    }
}

impl ShutdownPhase {
    /// How far the end is.
    pub open spec fn rank(self) -> nat {
        match self {
            ShutdownPhase::Setups => 0,
            ShutdownPhase::Removals => 1,
            ShutdownPhase::Displays => 2,
            ShutdownPhase::Workers => 3,
            ShutdownPhase::Ended => 4,
        }
    }
}

/// The manager ends its setups, the removals that are under way, the displays that
/// are left and the workers in this order, one after the other.
pub proof fn shutdown_goes_forward(
    before: ShutdownView,
    records: Map<Seq<char>, RecordView>,
    event: ShutdownEvent,
    after: ShutdownView,
    records_after: Map<Seq<char>, RecordView>,
    flow: ShutdownFlow,
)
    requires
        shutdown_reacts(before, records, event, after, records_after, flow),
    ensures
        before.phase.rank() <= after.phase.rank() <= before.phase.rank() + 1,
        flow is AwaitRemovals <==> before.phase == ShutdownPhase::Setups && after.phase
            == ShutdownPhase::Removals,
        flow is Remove <==> before.phase == ShutdownPhase::Removals && after.phase
            == ShutdownPhase::Displays,
        flow is EndWorkers <==> before.phase == ShutdownPhase::Displays && after.phase
            == ShutdownPhase::Workers,
        flow is Report || flow is Fail <==> before.phase == ShutdownPhase::Workers && after.phase
            == ShutdownPhase::Ended,
        after.outcome == before.outcome,
{
}

/// Once the setups and removals that were under way have ended, every display
/// that is not terminal is removed, and none is kept.
pub proof fn no_display_outlives_the_manager(
    before: ShutdownView,
    records: Map<Seq<char>, RecordView>,
    event: ShutdownEvent,
    after: ShutdownView,
    records_after: Map<Seq<char>, RecordView>,
    flow: ShutdownFlow,
    key: Seq<char>,
)
    requires
        shutdown_reacts(before, records, event, after, records_after, flow),
        flow is Remove,
        records.dom().contains(key),
        !(records[key].phase is SettingUp),
        !(records[key].phase is CancellingSetup),
        !(records[key].phase is Removing),
    ensures
        records[key].phase is Terminal || segments_of(flow->displays@).contains(key),
        !records_after.dom().contains(key),
{
}

/// A display that a setup adds while the manager ends is removed: at once where
/// the setup was to be cancelled, and with the others where it was not.
pub proof fn displays_added_late_are_removed(
    before: ShutdownView,
    records: Map<Seq<char>, RecordView>,
    display_id: CastDisplayId,
    after: ShutdownView,
    records_after: Map<Seq<char>, RecordView>,
    flow: ShutdownFlow,
    later: ShutdownView,
    last: ShutdownView,
    records_last: Map<Seq<char>, RecordView>,
    removal: ShutdownFlow,
)
    requires
        before.phase == ShutdownPhase::Setups,
        later.phase == ShutdownPhase::Removals,
        records.dom().contains(segment_text(display_id@)),
        shutdown_reacts(
            before,
            records,
            ShutdownEvent::Setup(Some((display_id, SetupJoin::Added { owner: Ok(()) }))),
            after,
            records_after,
            flow,
        ),
        shutdown_reacts(
            later,
            records_after,
            ShutdownEvent::Removal(None),
            last,
            records_last,
            removal,
        ),
    ensures
        flow is Joined,
        removal is Remove,
        flow->Joined_0@.start_removal <==> records[segment_text(
            display_id@,
        )].phase is CancellingSetup,
        !flow->Joined_0@.start_removal <==> segments_of(removal->displays@).contains(
            segment_text(display_id@),
        ),
{
}

/// A setup is cancelled at the end exactly if it is known and has not ended by
/// itself.
pub proof fn unfinished_setups_are_cancelled(
    records: Map<Seq<char>, RecordView>,
    stages: Seq<(CastDisplayId, DisplaySetupStage)>,
    display_id: CastDisplayId,
)
    ensures
        to_cancel(records, stages).contains(display_id) <==> records.dom().contains(
            segment_text(display_id@),
        ) && exists|i: int|
            0 <= i < stages.len() && (#[trigger] stages[i]).0 == display_id
                && !stages[i].1.terminal(),
    decreases stages.len(),
{
    if stages.len() > 0 {
        let fewer = stages.drop_last();
        let last = stages.last();
        unfinished_setups_are_cancelled(records, fewer, display_id);
        let earlier = to_cancel(records, fewer);
        assert forall|i: int| 0 <= i < fewer.len() implies #[trigger] fewer[i] == stages[i] by {}
        if to_cancel(records, stages).contains(display_id) {
            if earlier.contains(display_id) {
                let i = choose|i: int|
                    0 <= i < fewer.len() && (#[trigger] fewer[i]).0 == display_id
                        && !fewer[i].1.terminal();
                assert(stages[i].0 == display_id);
            } else {
                assert(stages[stages.len() - 1].0 == display_id);
            }
        }
        if records.dom().contains(segment_text(display_id@)) && exists|i: int|
            0 <= i < stages.len() && (#[trigger] stages[i]).0 == display_id
                && !stages[i].1.terminal() {
            let i = choose|i: int|
                0 <= i < stages.len() && (#[trigger] stages[i]).0 == display_id
                    && !stages[i].1.terminal();
            if i < fewer.len() {
                assert(fewer[i].0 == display_id);
                let j = choose|j: int| 0 <= j < earlier.len() && earlier[j] == display_id;
                assert(to_cancel(records, stages)[j] == display_id);
            } else {
                assert(to_cancel(records, stages) == earlier.push(display_id));
                assert(earlier.push(display_id)[earlier.len() as int] == display_id);
            }
        }
    }
}

/// One step of the end of the manager.
pub struct ShutdownStep {
    pub before: ShutdownView,
    pub records: Map<Seq<char>, RecordView>,
    pub event: ShutdownEvent,
    pub flow: ShutdownFlow,
}

/// Each step leads to the next.
pub open spec fn shutdown_trace(
    steps: Seq<ShutdownStep>,
    last: ShutdownView,
    records: Map<Seq<char>, RecordView>,
) -> bool
    decreases steps.len(),
{
    if steps.len() == 0 {
        true
    } else {
        let step = steps.last();
        &&& shutdown_reacts(step.before, step.records, step.event, last, records, step.flow)
        &&& shutdown_trace(steps.drop_last(), step.before, step.records)
    }
}

/// What was told of the displays that were still there, in order.
pub open spec fn removals_told(steps: Seq<ShutdownStep>) -> Seq<FinalRemoval>
    decreases steps.len(),
{
    if steps.len() == 0 {
        Seq::empty()
    } else {
        let earlier = removals_told(steps.drop_last());
        match (steps.last().before.phase, steps.last().event) {
            (ShutdownPhase::Displays, ShutdownEvent::Display(Some(removal))) => earlier.push(
                removal,
            ),
            _ => earlier,
        }
    }
}

/// The manager keeps what it is told of the displays that were still there, from
/// the beginning of the end to the report.
pub proof fn every_removal_is_kept(
    steps: Seq<ShutdownStep>,
    last: ShutdownView,
    records: Map<Seq<char>, RecordView>,
)
    requires
        steps.len() > 0,
        steps[0].before.removals.len() == 0,
        shutdown_trace(steps, last, records),
    ensures
        last.removals == removals_told(steps),
    decreases steps.len(),
{
    let step = steps.last();
    if steps.len() == 1 {
        assert(removals_told(steps.drop_last()) =~= Seq::empty());
        assert(step.before.removals =~= Seq::empty());
    } else {
        assert(steps.drop_last()[0] == steps[0]);
        every_removal_is_kept(steps.drop_last(), step.before, step.records);
    }
}

/// A removal that failed is in the report, unless a later one is reported under
/// the same name.
pub proof fn failed_removals_are_reported(
    errors: Map<Seq<char>, Seq<char>>,
    removals: Seq<FinalRemoval>,
    index: int,
)
    requires
        0 <= index < removals.len(),
        removal_error(removals[index]) is Some,
        forall|later: int|
            index < later < removals.len() && removal_error(
                #[trigger] removals[later],
            ) is Some ==> removal_error(removals[later])->0.key != removal_error(
                removals[index],
            )->0.key,
    ensures
        with_removals(errors, removals).dom().contains(removal_error(removals[index])->0.key),
        with_removals(errors, removals)[removal_error(removals[index])->0.key] == removal_error(
            removals[index],
        )->0.error,
    decreases removals.len(),
{
    if index < removals.len() - 1 {
        let earlier = removals.drop_last();
        assert(earlier[index] == removals[index]);
        assert forall|later: int|
            index < later < earlier.len() && removal_error(
                #[trigger] earlier[later],
            ) is Some implies removal_error(earlier[later])->0.key != removal_error(
            earlier[index],
        )->0.key by {
            assert(earlier[later] == removals[later]);
        }
        failed_removals_are_reported(errors, earlier, index);
        assert(removals.last() == removals[removals.len() - 1]);
    }
}

/// What is told of the displays hides no error of a backend that is reported under
/// another name.
pub proof fn worker_errors_stay_reported(
    errors: Map<Seq<char>, Seq<char>>,
    removals: Seq<FinalRemoval>,
    key: Seq<char>,
)
    requires
        forall|index: int|
            0 <= index < removals.len() && removal_error(
                #[trigger] removals[index],
            ) is Some ==> removal_error(removals[index])->0.key != key,
    ensures
        with_removals(errors, removals).dom().contains(key) == errors.dom().contains(key),
        with_removals(errors, removals)[key] == errors[key],
    decreases removals.len(),
{
    if removals.len() > 0 {
        let earlier = removals.drop_last();
        assert forall|index: int|
            0 <= index < earlier.len() && removal_error(
                #[trigger] earlier[index],
            ) is Some implies removal_error(earlier[index])->0.key != key by {
            assert(earlier[index] == removals[index]);
        }
        worker_errors_stay_reported(errors, earlier, key);
        assert(removals.last() == removals[removals.len() - 1]);
    }
}

/// A removal that went well has no error; one that did not is kept under its display, and a
/// task that failed under its own name, each with its reason.
pub proof fn removal_errors_name_their_display(removal: FinalRemoval)
    ensures
        removal_error(removal) is None <==> removal is Ended && removal->result is Ok,
        removal matches FinalRemoval::Ended { display_id, result } ==> (result is Err
            ==> removal_error(removal)->0.error == result->Err_0@ && removal_error(
            removal,
        )->0.key.skip(8) == id_text(display_id@)),
        removal matches FinalRemoval::TaskFailed { task, error } ==> removal_error(removal)->0.error
            == error@ && removal_error(removal)->0.key.skip(21) == task@,
{
    reveal_strlit("display:");
    reveal_strlit("display-cleanup-task:");
    match removal {
        FinalRemoval::Ended { display_id, result: Err(error) } => {
            assert(removal_error(removal)->0.key.skip(8) =~= id_text(display_id@));
        },
        FinalRemoval::TaskFailed { task, error } => {
            assert(removal_error(removal)->0.key.skip(21) =~= task@);
        },
        _ => {},
    }
}

/// While the manager ends, only a setup, a removal, or the removal of all that is left changes
/// the records; the outcome stays what it was when the end began.
pub proof fn ending_managers_keep_their_records(
    before: ShutdownView,
    records: Map<Seq<char>, RecordView>,
    event: ShutdownEvent,
    after: ShutdownView,
    records_after: Map<Seq<char>, RecordView>,
    flow: ShutdownFlow,
)
    requires
        shutdown_reacts(before, records, event, after, records_after, flow),
    ensures
        after.outcome == before.outcome,
        before.phase is Displays || before.phase is Workers || before.phase is Ended
            ==> records_after == records,
        event is Display || event is Workers ==> records_after == records,
        event is Setup && event->Setup_0 is None ==> records_after == records,
        flow is Remove ==> records_after.dom() =~= Set::empty(),
        flow is Remove ==> flow->reason is DaemonShutdown,
        before.phase is Displays && event is Display && event->Display_0 is Some
            ==> after.removals.len() == before.removals.len() + 1 && after.removals.last()
            == event->Display_0->0,
        !(before.phase is Displays && event is Display && event->Display_0 is Some)
            ==> after.removals == before.removals,
        before.phase is Removals && event is Removal && event->Removal_0 is Some ==> ({
            let (display_id, result) = event->Removal_0->0;
            !records_after.dom().contains(segment_text(display_id@)) && (result is Ok
                <==> flow->Joined_0.answer is Ok) && !flow->Joined_0.announce
        }),
        before.phase is Setups && event is Setup && event->Setup_0 is Some ==> flow is Joined
            && !flow->Joined_0.announce,
        flow is Report ==> before.outcome is Ok && flow->waiting == before.outcome->Ok_0,
        flow is Fail ==> before.outcome is Err && flow->Fail_0 == before.outcome->Err_0,
        before.phase is Workers && event is Workers ==> flow is Report || flow is Fail,
{
}

} // verus!
