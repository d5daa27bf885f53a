//! Cleanup of a capability, once its owner no longer holds it.

use vstd::prelude::*;

verus! {

/// Where a lease stands.
#[derive(Debug, Clone, Copy, PartialEq, Eq, Structural)]
pub enum LeaseState {
    /// The owner holds the capability; its cleanup has not begun.
    Held,
    /// The cleanup runs, and somebody waits for it or nobody does.
    Cleaning { awaited: bool },
    Ended,
}

/// A capability with the cleanup that its end asks for.
#[derive(Debug, PartialEq, Eq)]
pub struct CapabilityLease {
    pub state: LeaseState,
}

/// What becomes of the outcome of a cleanup.
#[derive(Debug, PartialEq, Eq)]
pub enum LeaseReport {
    /// Whoever released the capability is told.
    Tell(Result<(), String>),
    /// Nobody waits: a failure is only noted.
    Note(String),
    Nothing,
}

impl LeaseState {
    /// The lease once its owner has released the capability.
    pub open spec fn released(self) -> LeaseState {
        match self {
            LeaseState::Held => LeaseState::Cleaning { awaited: true },
            other => other,
        }
    }

    /// The lease once nobody waits for it.
    pub open spec fn abandoned(self) -> LeaseState {
        match self {
            LeaseState::Ended => LeaseState::Ended,
            _ => LeaseState::Cleaning { awaited: false },
        }
    }
}

/// How a cleanup ended, and who is told of it.
pub open spec fn ends_cleanup(
    before: LeaseState,
    outcome: Option<Result<(), String>>,
    after: LeaseState,
    report: LeaseReport,
) -> bool {
    &&& after == (if before is Cleaning {
        LeaseState::Ended
    } else {
        before
    })
    &&& match before {
        LeaseState::Cleaning { awaited: true } => match outcome {
            Some(result) => report == LeaseReport::Tell(result),
            None => report matches LeaseReport::Tell(Err(text)) && text@
                == "capability cleanup worker stopped"@,
        },
        LeaseState::Cleaning { awaited: false } => match outcome {
            Some(Err(text)) => report == LeaseReport::Note(text),
            _ => report == LeaseReport::Nothing,
        },
        _ => report == LeaseReport::Nothing,
    }
}

impl CapabilityLease {
    /// Arrange for the cleanup without beginning it.
    pub fn new() -> (lease: Self)
        ensures
            lease.state == LeaseState::Held,
    {
        CapabilityLease { state: LeaseState::Held }
    }

    /// Release the capability and wait: whether the cleanup begins now.
    pub fn release(&mut self) -> (begins: bool)
        ensures
            begins == (old(self).state == LeaseState::Held),
            final(self).state == old(self).state.released(),
    {
        match self.state {
            LeaseState::Held => {
                self.state = LeaseState::Cleaning { awaited: true };
                true
            },
            _ => false,
        }
    }

    /// The owner is gone, or waits no longer: whether the cleanup begins now.
    /// One that has begun goes on.
    pub fn abandon(&mut self) -> (begins: bool)
        ensures
            begins == (old(self).state == LeaseState::Held),
            final(self).state == old(self).state.abandoned(),
    {
        match self.state {
            LeaseState::Held => {
                self.state = LeaseState::Cleaning { awaited: false };
                true
            },
            LeaseState::Cleaning { .. } => {
                self.state = LeaseState::Cleaning { awaited: false };
                false
            },
            LeaseState::Ended => false,
        }
    }

    /// Take in what came of the cleanup, or that its worker is gone.
    pub fn cleaned(&mut self, outcome: Option<Result<(), String>>) -> (report: LeaseReport)
        ensures
            ends_cleanup(old(self).state, outcome, final(self).state, report),
    {
        match self.state {
            LeaseState::Cleaning { awaited } => {
                self.state = LeaseState::Ended;
                if awaited {
                    match outcome {
                        Some(result) => LeaseReport::Tell(result),
                        None => LeaseReport::Tell(
                            Err("capability cleanup worker stopped".to_owned()),
                        ),
                    }
                } else {
                    match outcome {
                        Some(Err(text)) => LeaseReport::Note(text),
                        _ => LeaseReport::Nothing,
                    }
                }
            },
            _ => LeaseReport::Nothing,
        }
    }
}

/// The cleanup of a capability begins at most once: a capability that was let
/// go, in whichever way, is not held again.
pub proof fn cleanups_begin_once(state: LeaseState)
    ensures
        state.released() != LeaseState::Held,
        state.abandoned() != LeaseState::Held,
{
}

/// Nobody who stops waiting keeps a cleanup from running to its end.
pub proof fn abandoned_cleanups_go_on(state: LeaseState)
    requires
        state is Cleaning,
    ensures
        state.released() is Cleaning,
        state.abandoned() is Cleaning,
{
}

/// Whoever released a capability hears how its cleanup ended. Where nobody waits,
/// only a failure is noted.
pub proof fn releases_hear_of_their_cleanup(
    outcome: Option<Result<(), String>>,
    awaited_after: LeaseState,
    awaited: LeaseReport,
    alone_after: LeaseState,
    alone: LeaseReport,
)
    requires
        ends_cleanup(LeaseState::Held.released(), outcome, awaited_after, awaited),
        ends_cleanup(LeaseState::Held.abandoned(), outcome, alone_after, alone),
    ensures
        awaited_after is Ended,
        alone_after is Ended,
        awaited is Tell,
        awaited->Tell_0 is Ok <==> outcome is Some && outcome->0 is Ok,
        outcome is Some ==> awaited->Tell_0 == outcome->0,
        alone is Note <==> outcome is Some && outcome->0 is Err,
        alone is Note ==> alone->Note_0 == outcome->0->Err_0,
        !(alone is Note) ==> alone is Nothing,
{
}

/// A capability that is held, or gone, has no cleanup that could end.
pub proof fn only_cleanups_end(
    before: LeaseState,
    outcome: Option<Result<(), String>>,
    after: LeaseState,
    report: LeaseReport,
)
    requires
        ends_cleanup(before, outcome, after, report),
    ensures
        before is Held || before is Ended ==> after == before && report is Nothing,
        LeaseState::Ended.released() is Ended,
        LeaseState::Ended.abandoned() is Ended,
        before is Cleaning ==> before.released() == before,
        before is Cleaning ==> before.abandoned() == (LeaseState::Cleaning { awaited: false }),
{
}

} // verus!
