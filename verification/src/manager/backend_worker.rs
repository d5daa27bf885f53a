//! Results of the workers that run the backends.

use crate::ordered::OrderedMap;
use vstd::prelude::*;

verus! {

/// How a backend shut down.
#[derive(Debug, PartialEq, Eq)]
pub struct BackendShutdownReport {
    pub last_connection_generation: Option<u64>,
    pub graceful: bool,
    pub errors: Vec<String>,
}

/// How the manager shut down: a report or an error for each backend, and an
/// error for each display that did not clean up.
#[derive(Debug)]
pub struct ManagerShutdownReport {
    pub backend_reports: OrderedMap<BackendShutdownReport>,
    pub errors: OrderedMap<String>,
}

/// What came of one worker.
#[derive(Debug, PartialEq, Eq)]
pub enum WorkerResult {
    Report(BackendShutdownReport),
    Failed(String),
    TimedOut,
}

/// What came of one worker, as an error.
pub open spec fn worker_error(result: WorkerResult) -> Option<Seq<char>> {
    match result {
        WorkerResult::Report(_) => None,
        WorkerResult::Failed(text) => Some(text@),
        WorkerResult::TimedOut => Some("shutdown timed out"@),
    }
}

/// The contents of a map of texts.
pub open spec fn texts(map: Map<Seq<char>, String>) -> Map<Seq<char>, Seq<char>> {
    map.map_values(|text: String| text@)
}

/// The reports with that of one more worker.
pub open spec fn with_report(
    reports: Map<Seq<char>, BackendShutdownReport>,
    backend_id: Seq<char>,
    result: WorkerResult,
) -> Map<Seq<char>, BackendShutdownReport> {
    match result {
        WorkerResult::Report(report) => reports.insert(backend_id, report),
        _ => reports,
    }
}

/// The errors with that of one more worker.
pub open spec fn with_error(
    errors: Map<Seq<char>, Seq<char>>,
    backend_id: Seq<char>,
    result: WorkerResult,
) -> Map<Seq<char>, Seq<char>> {
    match worker_error(result) {
        Some(text) => errors.insert(backend_id, text),
        None => errors,
    }
}

impl ManagerShutdownReport {
    pub fn new() -> (report: Self)
        ensures
            report.backend_reports@ == Map::<Seq<char>, BackendShutdownReport>::empty(),
            texts(report.errors@) == Map::<Seq<char>, Seq<char>>::empty(),
    {
        let report = ManagerShutdownReport {
            backend_reports: OrderedMap::new(),
            errors: OrderedMap::new(),
        };
        proof {
            assert(texts(report.errors@) =~= Map::<Seq<char>, Seq<char>>::empty());
        }
        report
    }

    /// Note an error under a key.
    pub fn note_error(&mut self, key: &str, error: String)
        ensures
            final(self).backend_reports@ == old(self).backend_reports@,
            texts(final(self).errors@) == texts(old(self).errors@).insert(key@, error@),
    {
        let ghost before = self.errors@;
        self.errors.insert(key, error);
        proof {
            assert(texts(self.errors@) =~= texts(before).insert(key@, error@));
        }
    }

    /// Note what came of one worker.
    pub fn record_worker_result(&mut self, backend_id: &str, result: WorkerResult)
        ensures
            final(self).backend_reports@ == with_report(
                old(self).backend_reports@,
                backend_id@,
                result,
            ),
            texts(final(self).errors@) == with_error(
                texts(old(self).errors@),
                backend_id@,
                result,
            ),
    {
        match result {
            WorkerResult::Report(report) => {
                self.backend_reports.insert(backend_id, report);
            },
            WorkerResult::Failed(text) => {
                self.note_error(backend_id, text);
            },
            WorkerResult::TimedOut => {
                self.note_error(backend_id, "shutdown timed out".to_owned());
            },
        }
    }
}

/// What happens to the worker of a backend.
#[derive(Debug)]
pub enum WorkerEvent {
    ShutdownRequested,
    /// The supervisor tells something, or will tell nothing any more.
    Supervisor { open: bool },
    /// A message was handed to the manager, or nobody takes it.
    Sent { taken: bool },
}

/// What the worker of a backend does next.
#[derive(Debug, Clone, Copy, PartialEq, Eq, Structural)]
pub enum WorkerAction {
    /// Hand what the supervisor told to the manager.
    Forward,
    /// Wait for the supervisor.
    Wait,
    /// Shut the supervisor down and end with its report.
    ShutDown,
    /// Tell the manager that the backend is lost, and end with a failure.
    ReportStopped,
}

/// What a worker does about an event.
pub open spec fn worker_action(event: WorkerEvent) -> WorkerAction {
    match event {
        WorkerEvent::ShutdownRequested => WorkerAction::ShutDown,
        WorkerEvent::Supervisor { open } => if open {
            WorkerAction::Forward
        } else {
            WorkerAction::ReportStopped
        },
        WorkerEvent::Sent { taken } => if taken {
            WorkerAction::Wait
        } else {
            WorkerAction::ShutDown
        },
    }
}

/// Go on after an event.
pub fn run_backend_worker(event: WorkerEvent) -> (action: WorkerAction)
    ensures
        action == worker_action(event),
{
    match event {
        WorkerEvent::ShutdownRequested => WorkerAction::ShutDown,
        WorkerEvent::Supervisor { open: true } => WorkerAction::Forward,
        WorkerEvent::Supervisor { open: false } => WorkerAction::ReportStopped,
        WorkerEvent::Sent { taken: true } => WorkerAction::Wait,
        WorkerEvent::Sent { taken: false } => WorkerAction::ShutDown,
    }
}

/// The reports of several workers.
pub open spec fn all_reports(results: Seq<(String, WorkerResult)>) -> Map<
    Seq<char>,
    BackendShutdownReport,
>
    decreases results.len(),
{
    if results.len() == 0 {
        Map::empty()
    } else {
        with_report(all_reports(results.drop_last()), results.last().0@, results.last().1)
    }
}

/// The errors of several workers.
pub open spec fn all_errors(results: Seq<(String, WorkerResult)>) -> Map<Seq<char>, Seq<char>>
    decreases results.len(),
{
    if results.len() == 0 {
        Map::empty()
    } else {
        with_error(all_errors(results.drop_last()), results.last().0@, results.last().1)
    }
}

/// The report of several workers: a worker that did not end in time hides none
/// of the others.
pub fn collect_worker_results(results: Vec<(String, WorkerResult)>) -> (report:
    ManagerShutdownReport)
    ensures
        report.backend_reports@ == all_reports(results@),
        texts(report.errors@) == all_errors(results@),
{
    let mut report = ManagerShutdownReport::new();
    let mut rest = results;
    let ghost all = results@;
    let mut index: usize = 0;
    let count: usize = rest.len();
    proof {
        assert(all.take(0) =~= Seq::empty());
    }
    while index < count
        invariant
            index <= count,
            count == all.len(),
            rest@ == all.skip(index as int),
            report.backend_reports@ == all_reports(all.take(index as int)),
            texts(report.errors@) == all_errors(all.take(index as int)),
        decreases count - index,
    {
        let (backend_id, result) = rest.remove(0);
        proof {
            let upto = all.take(index + 1);
            assert(upto.drop_last() =~= all.take(index as int));
            assert(upto.last() == all[index as int]);
            assert(all.skip(index as int).remove(0) =~= all.skip(index + 1));
        }
        report.record_worker_result(backend_id.as_str(), result);
        index += 1;
    }
    proof {
        assert(all.take(index as int) =~= all);
    }
    report
}

/// A worker whose ID is its own is reported once, or has its error told,
/// whatever came of the others.
pub proof fn every_worker_is_accounted_for(results: Seq<(String, WorkerResult)>, index: int)
    requires
        0 <= index < results.len(),
        forall|i: int, j: int|
            0 <= i < j < results.len() ==> (#[trigger] results[i]).0@ != (
            #[trigger] results[j]).0@,
    ensures
        match results[index].1 {
            WorkerResult::Report(report) => all_reports(results).dom().contains(
                results[index].0@,
            ) && all_reports(results)[results[index].0@] == report,
            _ => all_errors(results).dom().contains(results[index].0@) && Some(
                all_errors(results)[results[index].0@],
            ) == worker_error(results[index].1),
        },
    decreases results.len(),
{
    if index < results.len() - 1 {
        let earlier = results.drop_last();
        assert forall|i: int, j: int| 0 <= i < j < earlier.len() implies (
        #[trigger] earlier[i]).0@ != (#[trigger] earlier[j]).0@ by {
            assert(earlier[i] == results[i]);
            assert(earlier[j] == results[j]);
        }
        assert(earlier[index] == results[index]);
        every_worker_is_accounted_for(earlier, index);
        assert(results[index].0@ != results[results.len() - 1].0@);
    }
}

/// A worker hands on what its supervisor tells and waits for more; it shuts the supervisor
/// down when it is asked to, or when nobody listens, and tells when the supervisor is gone.
pub proof fn workers_hand_on_what_they_are_told(event: WorkerEvent)
    ensures
        worker_action(event) is Forward <==> event == (WorkerEvent::Supervisor { open: true }),
        worker_action(event) is ReportStopped <==> event == (WorkerEvent::Supervisor {
            open: false,
        }),
        worker_action(event) is Wait <==> event == (WorkerEvent::Sent { taken: true }),
        worker_action(event) is ShutDown <==> event is ShutdownRequested || event
            == (WorkerEvent::Sent { taken: false }),
{
}

/// A backend that reported is in the reports, one that failed is among the errors with its
/// reason, and no result touches another backend.
pub proof fn results_are_kept_by_backend(
    reports: Map<Seq<char>, BackendShutdownReport>,
    errors: Map<Seq<char>, Seq<char>>,
    backend_id: Seq<char>,
    other: Seq<char>,
    result: WorkerResult,
)
    requires
        other != backend_id,
    ensures
        result matches WorkerResult::Report(report) ==> with_report(
            reports,
            backend_id,
            result,
        ).dom().contains(backend_id) && with_report(reports, backend_id, result)[backend_id]
            == report && with_error(errors, backend_id, result) == errors,
        result matches WorkerResult::Failed(text) ==> with_report(reports, backend_id, result)
            == reports && with_error(errors, backend_id, result).dom().contains(backend_id)
            && with_error(errors, backend_id, result)[backend_id] == text@,
        result is TimedOut ==> with_report(reports, backend_id, result) == reports && with_error(
            errors,
            backend_id,
            result,
        ).dom().contains(backend_id),
        with_report(reports, backend_id, result).dom().contains(other)
            <==> reports.dom().contains(other),
        reports.dom().contains(other) ==> with_report(reports, backend_id, result)[other]
            == reports[other],
        with_error(errors, backend_id, result).dom().contains(other)
            <==> errors.dom().contains(other),
        errors.dom().contains(other) ==> with_error(errors, backend_id, result)[other]
            == errors[other],
{
}

/// The report of a backend is its last one, and its error its last error.
pub proof fn the_last_result_of_a_backend_counts(results: Seq<(String, WorkerResult)>)
    requires
        results.len() > 0,
    ensures
        ({
            let (id, result) = results.last();
            &&& result matches WorkerResult::Report(report) ==> all_reports(results)[id@] == report
            &&& result matches WorkerResult::Failed(text) ==> all_errors(results)[id@] == text@
            &&& forall|other: Seq<char>| #![trigger all_reports(results).dom().contains(other)]
                other != id@ ==> (all_reports(results).dom().contains(other) <==> all_reports(
                    results.drop_last(),
                ).dom().contains(other))
            &&& forall|other: Seq<char>| #![trigger all_errors(results).dom().contains(other)]
                other != id@ ==> (all_errors(results).dom().contains(other) <==> all_errors(
                    results.drop_last(),
                ).dom().contains(other))
        }),
        all_reports(Seq::empty()).dom() =~= Set::empty(),
        all_errors(Seq::empty()).dom() =~= Set::empty(),
{
}

} // verus!
