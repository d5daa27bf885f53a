//! Publication of inventory changes.

use crate::display::CastDisplayId;
use crate::manager::display_lifecycle::ManagedDisplays;
use crate::manager::runtime::{refresh_configured_displays, refreshed, updates_view};
use crate::manager::{events_view, InventoryEvent, InventoryEventView, ManagerTaskError};
use crate::protocol::DeviceInfo;
use vstd::prelude::*;

verus! {

/// A change that is being sent, and those that follow it.
#[derive(Debug)]
pub struct SendingChange {
    pub change: InventoryEvent,
    pub rest: Vec<InventoryEvent>,
}

/// A change that was sent, and is still to reach the displays of its device.
#[derive(Debug)]
pub struct SentChange {
    pub change: InventoryEvent,
    pub rest: Vec<InventoryEvent>,
}

/// The contents of a [`SendingChange`] or a [`SentChange`].
pub struct ChangesView {
    pub change: InventoryEventView,
    pub rest: Seq<InventoryEventView>,
}

impl View for SendingChange {
    type V = ChangesView;

    open spec fn view(&self) -> ChangesView {
        ChangesView { change: self.change@, rest: events_view(self.rest@) }
    }
}

impl View for SentChange {
    type V = ChangesView;

    open spec fn view(&self) -> ChangesView {
        ChangesView { change: self.change@, rest: events_view(self.rest@) }
    }
}

/// The contents of the change to send, if there is one.
pub open spec fn sending_view(sending: Option<SendingChange>) -> Option<ChangesView> {
    match sending {
        Some(sending) => Some(sending@),
        None => None,
    }
}

/// The first of several changes, and those that follow it.
pub open spec fn first_change(changes: Seq<InventoryEventView>) -> Option<ChangesView> {
    if changes.len() == 0 {
        None
    } else {
        Some(ChangesView { change: changes[0], rest: changes.skip(1) })
    }
}

/// The change to send first, if there is any.
pub fn publish_inventory_changes(changes: Vec<InventoryEvent>) -> (sending: Option<SendingChange>)
    ensures
        sending_view(sending) == first_change(events_view(changes@)),
{
    let ghost all = events_view(changes@);
    let mut rest = changes;
    if rest.len() == 0 {
        return None;
    }
    let change = rest.remove(0);
    proof {
        assert(events_view(rest@) =~= all.skip(1));
    }
    Some(SendingChange { change, rest })
}

impl SendingChange {
    /// Go on once the change was sent. Where nobody takes changes any more,
    /// neither the displays nor the changes that follow get anything.
    pub fn sent(self, taken: bool) -> (result: Result<SentChange, ManagerTaskError>)
        ensures
            match result {
                Ok(change) => taken && change@ == self@,
                Err(error) => !taken && error == ManagerTaskError::EventConsumerStopped,
            },
    {
        if taken {
            Ok(SentChange { change: self.change, rest: self.rest })
        } else {
            Err(ManagerTaskError::EventConsumerStopped)
        }
    }
}

impl SentChange {
    /// The displays that the change updates, of those that are there, and the
    /// change to send once they have it.
    pub fn refresh(
        self,
        records: &ManagedDisplays,
        displays: &Vec<(CastDisplayId, DeviceInfo)>,
    ) -> (result: (Vec<(CastDisplayId, DeviceInfo)>, Option<SendingChange>))
        ensures
            updates_view(result.0@) == refreshed(records@, displays@, self@.change),
            sending_view(result.1) == first_change(self@.rest),
    {
        let updates = refresh_configured_displays(records, displays, &self.change);
        (updates, publish_inventory_changes(self.rest))
    }
}

/// What is done about the changes, in order.
pub enum PublicationStep {
    Send(InventoryEventView),
    Refresh(InventoryEventView),
}

/// What is done about changes when sending them goes as it does.
pub open spec fn publication(sending: Option<ChangesView>, taken: Seq<bool>) -> Seq<PublicationStep>
    decreases taken.len(),
{
    match sending {
        None => Seq::empty(),
        Some(at) => if taken.len() == 0 {
            Seq::empty()
        } else if !taken[0] {
            seq![PublicationStep::Send(at.change)]
        } else {
            seq![PublicationStep::Send(at.change), PublicationStep::Refresh(at.change)]
                + publication(first_change(at.rest), taken.skip(1))
        },
    }
}

/// The first changes, each sent and then handed to the displays.
pub open spec fn published(changes: Seq<InventoryEventView>, count: nat) -> Seq<PublicationStep> {
    Seq::new(
        2 * count,
        |i: int|
            if i % 2 == 0 {
                PublicationStep::Send(changes[i / 2])
            } else {
                PublicationStep::Refresh(changes[i / 2])
            },
    )
}

/// Changes are published in order, and each reaches the displays of its device
/// after it was sent and before the next one is. The first one that nobody takes
/// is the last that is sent, and reaches no display.
pub proof fn changes_are_sent_before_displays_follow(
    changes: Seq<InventoryEventView>,
    taken: Seq<bool>,
    count: nat,
)
    requires
        count <= changes.len(),
        count <= taken.len(),
        forall|i: int| 0 <= i < count ==> #[trigger] taken[i],
        count < changes.len() ==> count < taken.len() && !taken[count as int],
    ensures
        publication(first_change(changes), taken) == published(changes, count) + (if count
            < changes.len() {
            seq![PublicationStep::Send(changes[count as int])]
        } else {
            Seq::empty()
        }),
    decreases count,
{
    let end = if count < changes.len() {
        seq![PublicationStep::Send(changes[count as int])]
    } else {
        Seq::empty()
    };
    if count == 0 {
        assert(publication(first_change(changes), taken) =~= published(changes, count) + end);
    } else {
        let rest = changes.skip(1);
        let later = taken.skip(1);
        let fewer = (count - 1) as nat;
        assert(taken[0]);
        assert forall|i: int| 0 <= i < fewer implies #[trigger] later[i] by {
            assert(taken[i + 1]);
        }
        changes_are_sent_before_displays_follow(rest, later, fewer);
        let first = seq![PublicationStep::Send(changes[0]), PublicationStep::Refresh(changes[0])];
        assert(publication(first_change(changes), taken) == first + publication(
            first_change(rest),
            later,
        ));
        assert(published(changes, count) =~= first + published(rest, fewer)) by {
            assert forall|i: int| 2 <= i < 2 * count implies published(changes, count)[i] == (first
                + published(rest, fewer))[i] by {
                assert((i - 2) / 2 == i / 2 - 1);
                assert((i - 2) % 2 == i % 2);
                assert(rest[(i - 2) / 2] == changes[i / 2]);
            }
        }
        assert(first + (published(rest, fewer) + end) =~= published(changes, count) + end);
    }
}

/// Changes are told one after the other, from the first to the last; the rest waits in its
/// order.
pub proof fn changes_wait_in_their_order(changes: Seq<InventoryEventView>, i: int)
    ensures
        first_change(changes) is None <==> changes.len() == 0,
        first_change(changes) matches Some(at) ==> {
            &&& at.change == changes[0]
            &&& at.rest.len() == changes.len() - 1
            &&& 0 <= i < at.rest.len() ==> at.rest[i] == changes[i + 1]
        },
{
}

} // verus!
