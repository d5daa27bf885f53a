//! Cast-display state and its transition rules.
//!
//! The owner of a display feeds validated observations in and projects
//! snapshots outward.

use crate::nonzero::NonZeroU32;
use crate::order::same_text;
use vstd::prelude::*;

verus! {

#[derive(Debug, Clone, Copy, PartialEq, Eq, Structural)]
pub enum AttachmentState {
    Attached,
    Detached,
    Unknown,
}

#[derive(Debug, Clone, Copy, PartialEq, Eq, Structural)]
pub struct RoutedMode {
    pub width: u32,
    pub height: u32,
    pub refresh_millihz: u32,
    pub flags: u32,
}

/// The controller that drives an active output.
#[derive(Debug, Clone, Copy, PartialEq, Eq, Structural)]
pub struct RouteTarget(pub NonZeroU32);

impl RouteTarget {
    pub fn new(value: NonZeroU32) -> (target: Self)
        ensures
            target == RouteTarget(value),
    {
        RouteTarget(value)
    }

    pub fn get(self) -> (value: u32)
        ensures
            value == self.0@,
            value != 0,
    {
        self.0.get()
    }

    pub fn as_nonzero(self) -> (value: NonZeroU32)
        ensures
            value == self.0,
    {
        self.0
    }
}

#[derive(Debug, Clone, Copy, PartialEq, Eq, Structural)]
pub struct ActiveRoute {
    pub target: RouteTarget,
    pub mode: RoutedMode,
}

/// One observation of a connector: only an attached one can have a route.
#[derive(Debug, Clone, Copy, PartialEq, Eq, Structural)]
pub enum DisplayTopology {
    Attached { route: Option<ActiveRoute> },
    Detached,
    Unknown,
}

impl DisplayTopology {
    pub open spec fn spec_route(self) -> RouteState {
        match self {
            DisplayTopology::Attached { route: Some(route) } => RouteState::Active(route),
            _ => RouteState::Disabled,
        }
    }

    pub open spec fn spec_attachment(self) -> AttachmentState {
        match self {
            DisplayTopology::Attached { .. } => AttachmentState::Attached,
            DisplayTopology::Detached => AttachmentState::Detached,
            DisplayTopology::Unknown => AttachmentState::Unknown,
        }
    }

    pub fn route(self) -> (route: RouteState)
        ensures
            route == self.spec_route(),
    {
        match self {
            DisplayTopology::Attached { route: Some(route) } => RouteState::Active(route),
            DisplayTopology::Attached { route: None } | DisplayTopology::Detached
            | DisplayTopology::Unknown => RouteState::Disabled,
        }
    }
}

#[derive(Debug, Clone, Copy, PartialEq, Eq, Structural)]
pub enum RouteState {
    Disabled,
    Active(ActiveRoute),
}

#[derive(Debug, Clone, Copy, PartialEq, Eq, Structural)]
pub enum DisplayGrantState {
    Pending,
    Active,
    SuspendedNoMaster,
    SuspendedOtherMaster,
    SuspendedForeignContent,
    Revoked,
}

#[derive(Debug, Clone, Copy, PartialEq, Eq, Structural)]
pub enum MediaState {
    Idle,
    StartingCapture,
    StartingMedia,
    Running,
    Suspended,
    Reconfiguring,
    Reconnecting,
    Stopping,
    Failed,
}

/// A media state; a failure carries its diagnostic.
#[derive(Debug, PartialEq, Eq)]
pub enum MediaStatus {
    Idle,
    StartingCapture,
    StartingMedia,
    Running,
    Suspended,
    Reconfiguring,
    Reconnecting,
    Stopping,
    Failed(String),
}

/// The contents of a [`MediaStatus`].
pub struct StatusView {
    pub state: MediaState,
    pub error: Option<Seq<char>>,
}

impl StatusView {
    /// An error is there exactly where media has failed.
    pub open spec fn wf(self) -> bool {
        self.error is Some <==> self.state == MediaState::Failed
    }
}

impl View for MediaStatus {
    type V = StatusView;

    open spec fn view(&self) -> StatusView {
        match *self {
            MediaStatus::Idle => StatusView { state: MediaState::Idle, error: None },
            MediaStatus::StartingCapture => StatusView {
                state: MediaState::StartingCapture,
                error: None,
            },
            MediaStatus::StartingMedia => StatusView {
                state: MediaState::StartingMedia,
                error: None,
            },
            MediaStatus::Running => StatusView { state: MediaState::Running, error: None },
            MediaStatus::Suspended => StatusView { state: MediaState::Suspended, error: None },
            MediaStatus::Reconfiguring => StatusView {
                state: MediaState::Reconfiguring,
                error: None,
            },
            MediaStatus::Reconnecting => StatusView {
                state: MediaState::Reconnecting,
                error: None,
            },
            MediaStatus::Stopping => StatusView { state: MediaState::Stopping, error: None },
            MediaStatus::Failed(error) => StatusView {
                state: MediaState::Failed,
                error: Some(error@),
            },
        }
    }
}

impl Clone for MediaStatus {
    fn clone(&self) -> (copy: Self)
        ensures
            copy@ == self@,
    {
        match self {
            MediaStatus::Idle => MediaStatus::Idle,
            MediaStatus::StartingCapture => MediaStatus::StartingCapture,
            MediaStatus::StartingMedia => MediaStatus::StartingMedia,
            MediaStatus::Running => MediaStatus::Running,
            MediaStatus::Suspended => MediaStatus::Suspended,
            MediaStatus::Reconfiguring => MediaStatus::Reconfiguring,
            MediaStatus::Reconnecting => MediaStatus::Reconnecting,
            MediaStatus::Stopping => MediaStatus::Stopping,
            MediaStatus::Failed(error) => MediaStatus::Failed(error.clone()),
        }
    }
}

impl MediaStatus {
    pub fn state(&self) -> (state: MediaState)
        ensures
            state == self@.state,
    {
        match self {
            MediaStatus::Idle => MediaState::Idle,
            MediaStatus::StartingCapture => MediaState::StartingCapture,
            MediaStatus::StartingMedia => MediaState::StartingMedia,
            MediaStatus::Running => MediaState::Running,
            MediaStatus::Suspended => MediaState::Suspended,
            MediaStatus::Reconfiguring => MediaState::Reconfiguring,
            MediaStatus::Reconnecting => MediaState::Reconnecting,
            MediaStatus::Stopping => MediaState::Stopping,
            MediaStatus::Failed(_) => MediaState::Failed,
        }
    }

    pub fn error(&self) -> (error: Option<&str>)
        ensures
            match error {
                Some(text) => self@.error == Some(text@),
                None => self@.error is None,
            },
            error is Some <==> self@.state == MediaState::Failed,
    {
        match self {
            MediaStatus::Failed(error) => Some(error.as_str()),
            _ => None,
        }
    }

    /// Whether two statuses have the same contents.
    pub fn same(&self, other: &MediaStatus) -> (same: bool)
        ensures
            same == (self@ == other@),
    {
        match (self, other) {
            (MediaStatus::Failed(left), MediaStatus::Failed(right)) => same_text(
                left.as_str(),
                right.as_str(),
            ),
            _ => self.state() == other.state(),
        }
    }
}

/// Revisioned runtime state of one display.
#[derive(Debug, PartialEq, Eq)]
pub struct DisplayRuntimeState {
    revision: u64,
    route_generation: u64,
    topology: DisplayTopology,
    media_generation: u64,
    media: MediaStatus,
}

/// The contents of a [`DisplayRuntimeState`].
pub struct RuntimeView {
    pub revision: u64,
    pub route_generation: u64,
    pub topology: DisplayTopology,
    pub media_generation: u64,
    pub media: StatusView,
}

impl View for DisplayRuntimeState {
    type V = RuntimeView;

    closed spec fn view(&self) -> RuntimeView {
        RuntimeView {
            revision: self.revision,
            route_generation: self.route_generation,
            topology: self.topology,
            media_generation: self.media_generation,
            media: self.media@,
        }
    }
}

/// One more, up to the largest number there is.
pub open spec fn next(number: u64) -> u64 {
    if number == u64::MAX {
        number
    } else {
        (number + 1) as u64
    }
}

pub open spec fn larger(left: u64, right: u64) -> u64 {
    if left >= right {
        left
    } else {
        right
    }
}

impl RuntimeView {
    /// A fresh display: attached, without a route, and without media.
    pub open spec fn fresh(initial_revision: u64) -> RuntimeView {
        RuntimeView {
            revision: larger(initial_revision, 1),
            route_generation: 0,
            topology: DisplayTopology::Attached { route: None },
            media_generation: 0,
            media: StatusView { state: MediaState::Idle, error: None },
        }
    }

    /// The state after one topology observation.
    ///
    /// Only a change advances the revision, and only a change of the route
    /// advances the route generation. Media is not guessed from topology.
    pub open spec fn with_topology(self, topology: DisplayTopology) -> RuntimeView {
        if self.topology == topology {
            self
        } else {
            RuntimeView {
                revision: next(self.revision),
                route_generation: if self.topology.spec_route() != topology.spec_route() {
                    next(self.route_generation)
                } else {
                    self.route_generation
                },
                topology,
                ..self
            }
        }
    }

    /// A media observation says something, and is no older than what is known.
    pub open spec fn media_is_news(self, generation: u64, status: StatusView) -> bool {
        generation > self.media_generation || (generation == self.media_generation && status
            != self.media)
    }

    /// The state after one media observation.
    pub open spec fn with_media(self, generation: u64, status: StatusView) -> RuntimeView {
        if self.media_is_news(generation, status) {
            RuntimeView {
                revision: next(self.revision),
                media_generation: generation,
                media: status,
                ..self
            }
        } else {
            self
        }
    }
}

impl Clone for DisplayRuntimeState {
    fn clone(&self) -> (copy: Self)
        ensures
            copy@ == self@,
    {
        DisplayRuntimeState {
            revision: self.revision,
            route_generation: self.route_generation,
            topology: self.topology,
            media_generation: self.media_generation,
            media: self.media.clone(),
        }
    }
}

impl DisplayRuntimeState {
    pub fn revision(&self) -> (revision: u64)
        ensures
            revision == self@.revision,
    {
        self.revision
    }

    pub fn route_generation(&self) -> (generation: u64)
        ensures
            generation == self@.route_generation,
    {
        self.route_generation
    }

    pub fn topology(&self) -> (topology: DisplayTopology)
        ensures
            topology == self@.topology,
    {
        self.topology
    }

    pub fn attachment(&self) -> (attachment: AttachmentState)
        ensures
            attachment == self@.topology.spec_attachment(),
    {
        match self.topology {
            DisplayTopology::Attached { .. } => AttachmentState::Attached,
            DisplayTopology::Detached => AttachmentState::Detached,
            DisplayTopology::Unknown => AttachmentState::Unknown,
        }
    }

    pub fn route(&self) -> (route: RouteState)
        ensures
            route == self@.topology.spec_route(),
    {
        self.topology.route()
    }

    pub fn media_generation(&self) -> (generation: u64)
        ensures
            generation == self@.media_generation,
    {
        self.media_generation
    }

    pub fn media(&self) -> (state: MediaState)
        ensures
            state == self@.media.state,
    {
        self.media.state()
    }

    pub fn last_error(&self) -> (error: Option<&str>)
        ensures
            match error {
                Some(text) => self@.media.error == Some(text@),
                None => self@.media.error is None,
            },
            error is Some <==> self@.media.state == MediaState::Failed,
    {
        self.media.error()
    }

    pub fn attached(initial_revision: u64) -> (state: Self)
        ensures
            state@ == RuntimeView::fresh(initial_revision),
    {
        DisplayRuntimeState {
            revision: if initial_revision >= 1 {
                initial_revision
            } else {
                1
            },
            route_generation: 0,
            topology: DisplayTopology::Attached { route: None },
            media_generation: 0,
            media: MediaStatus::Idle,
        }
    }

    /// Apply one authoritative kernel topology observation.
    pub fn observe_topology(&mut self, topology: DisplayTopology) -> (changed: bool)
        ensures
            changed == (old(self)@.topology != topology),
            final(self)@ == old(self)@.with_topology(topology),
    {
        if self.topology == topology {
            return false;
        }
        if self.route() != topology.route() {
            self.route_generation = saturating_next(self.route_generation);
        }
        self.topology = topology;
        self.advance();
        true
    }

    /// Apply one observation of the media owner.
    pub fn observe_media(&mut self, generation: u64, status: MediaStatus) -> (changed: bool)
        ensures
            changed == old(self)@.media_is_news(generation, status@),
            final(self)@ == old(self)@.with_media(generation, status@),
    {
        if generation < self.media_generation {
            return false;
        }
        if self.media_generation == generation && self.media.same(&status) {
            return false;
        }
        self.media_generation = generation;
        self.media = status;
        self.advance();
        true
    }

    pub fn advance_to_at_least(&mut self, revision: u64)
        ensures
            final(self)@ == (RuntimeView {
                revision: larger(old(self)@.revision, revision),
                ..old(self)@
            }),
    {
        if revision > self.revision {
            self.revision = revision;
        }
    }

    pub fn advance_for_external_change(&mut self, minimum_revision: u64)
        ensures
            final(self)@ == (RuntimeView {
                revision: larger(next(old(self)@.revision), minimum_revision),
                ..old(self)@
            }),
    {
        self.advance();
        self.advance_to_at_least(minimum_revision);
    }

    fn advance(&mut self)
        ensures
            final(self)@ == (RuntimeView { revision: next(old(self)@.revision), ..old(self)@ }),
    {
        self.revision = saturating_next(self.revision);
    }
}

fn saturating_next(number: u64) -> (following: u64)
    ensures
        following == next(number),
{
    if number == u64::MAX {
        number
    } else {
        number + 1
    }
}

/// Observing the same topology again changes nothing.
pub proof fn repeated_topology_changes_nothing(state: RuntimeView, topology: DisplayTopology)
    ensures
        state.with_topology(topology).with_topology(topology) == state.with_topology(topology),
{
}

/// Observing the same media again changes nothing.
pub proof fn repeated_media_changes_nothing(
    state: RuntimeView,
    generation: u64,
    status: StatusView,
)
    ensures
        state.with_media(generation, status).with_media(generation, status) == state.with_media(
            generation,
            status,
        ),
{
}

/// A revision never goes back, and below its limit stands still only where
/// nothing changed.
pub proof fn revisions_tell_changes(
    state: RuntimeView,
    topology: DisplayTopology,
    generation: u64,
    status: StatusView,
)
    ensures
        state.with_topology(topology).revision >= state.revision,
        state.with_media(generation, status).revision >= state.revision,
        state.revision < u64::MAX ==> (state.with_topology(topology).revision == state.revision
            <==> state.with_topology(topology) == state),
        state.revision < u64::MAX ==> (state.with_media(generation, status).revision
            == state.revision <==> state.with_media(generation, status) == state),
{
}

/// The route generation tells route changes apart, below its limit.
pub proof fn route_generations_tell_route_changes(state: RuntimeView, topology: DisplayTopology)
    requires
        state.route_generation < u64::MAX,
    ensures
        state.with_topology(topology).route_generation == state.route_generation <==>
            state.topology.spec_route() == topology.spec_route(),
{
}

/// Media is not guessed from topology, nor topology from media.
pub proof fn topology_and_media_are_independent(
    state: RuntimeView,
    topology: DisplayTopology,
    generation: u64,
    status: StatusView,
)
    ensures
        state.with_topology(topology).media == state.media,
        state.with_topology(topology).media_generation == state.media_generation,
        state.with_media(generation, status).topology == state.topology,
        state.with_media(generation, status).route_generation == state.route_generation,
{
}

/// An older media generation cannot replace what is known of a newer one.
pub proof fn stale_media_is_ignored(state: RuntimeView, generation: u64, status: StatusView)
    requires
        generation < state.media_generation,
    ensures
        state.with_media(generation, status) == state,
{
}

/// A display has an error exactly while its media has failed.
pub proof fn errors_tell_failed_media(state: DisplayRuntimeState)
    ensures
        state@.media.wf(),
{
}

/// The state after some media observations.
pub open spec fn observed_media(state: RuntimeView, statuses: Seq<(u64, StatusView)>) -> RuntimeView
    decreases statuses.len(),
{
    if statuses.len() == 0 {
        state
    } else {
        let (generation, status) = statuses.last();
        observed_media(state, statuses.drop_last()).with_media(generation, status)
    }
}

/// The last of some media observations that said something, if one did.
pub open spec fn last_accepted(state: RuntimeView, statuses: Seq<(u64, StatusView)>) -> Option<
    StatusView,
>
    decreases statuses.len(),
{
    if statuses.len() == 0 {
        None
    } else {
        let (generation, status) = statuses.last();
        if observed_media(state, statuses.drop_last()).media_is_news(generation, status) {
            Some(status)
        } else {
            last_accepted(state, statuses.drop_last())
        }
    }
}

/// The error of a display is that of the last accepted media status: the text
/// of a failure, and none once something else has been accepted. Topology does
/// not touch it.
pub proof fn errors_are_those_of_the_last_accepted_status(
    state: RuntimeView,
    statuses: Seq<(u64, StatusView)>,
    topology: DisplayTopology,
)
    ensures
        observed_media(state, statuses).media == (match last_accepted(state, statuses) {
            Some(status) => status,
            None => state.media,
        }),
        observed_media(state, statuses).with_topology(topology).media == observed_media(
            state,
            statuses,
        ).media,
    decreases statuses.len(),
{
    if statuses.len() > 0 {
        errors_are_those_of_the_last_accepted_status(state, statuses.drop_last(), topology);
    }
}

/// A connector that is not attached has no active route.
pub proof fn only_attached_connectors_have_routes(state: RuntimeView)
    ensures
        state.topology.spec_route() is Active ==> state.topology.spec_attachment()
            == AttachmentState::Attached,
{
}

/// A display has an active route exactly where the connector is attached and the
/// compositor drives it, and it is that route.
pub proof fn routes_are_those_of_attached_connectors(topology: DisplayTopology, route: ActiveRoute)
    ensures
        topology.spec_route() == RouteState::Active(route) <==> topology == (
        DisplayTopology::Attached { route: Some(route) }),
        topology.spec_attachment() == AttachmentState::Detached <==> topology
            == DisplayTopology::Detached,
        topology.spec_attachment() == AttachmentState::Unknown <==> topology
            == DisplayTopology::Unknown,
        topology.spec_attachment() == AttachmentState::Attached <==> topology is Attached,
{
}

/// An observation of the connector is what the display then shows, and media is
/// never guessed from it.
pub proof fn observed_topologies_are_shown(state: RuntimeView, topology: DisplayTopology)
    ensures
        state.with_topology(topology).topology == topology,
        state.with_topology(topology).media == state.media,
        state.with_topology(topology).media_generation == state.media_generation,
        state.topology != topology && state.revision < u64::MAX ==> state.with_topology(
            topology,
        ).revision == state.revision + 1,
        state.route_generation < u64::MAX ==> (state.with_topology(topology).route_generation
            == state.route_generation + 1 <==> state.topology.spec_route()
            != topology.spec_route()),
{
}

/// Media that is as new as what is shown, and says something else, is shown; older
/// media is not, and neither touches the route.
pub proof fn newer_media_is_shown(state: RuntimeView, generation: u64, status: StatusView)
    ensures
        ({
            let after = state.with_media(generation, status);
            &&& generation >= state.media_generation ==> after.media == status
                && after.media_generation == generation
            &&& generation < state.media_generation ==> after == state
            &&& after.topology == state.topology
            &&& after.route_generation == state.route_generation
            &&& after != state && state.revision < u64::MAX ==> after.revision == state.revision
                + 1
        }),
{
}

/// A display begins attached, without a route and without media, at a revision of
/// at least one that is no lower than the one it is given.
pub proof fn displays_begin_without_a_route(initial_revision: u64)
    ensures
        ({
            let fresh = RuntimeView::fresh(initial_revision);
            &&& fresh.topology == (DisplayTopology::Attached { route: None })
            &&& fresh.media.state == MediaState::Idle && fresh.media.error is None
            &&& fresh.revision >= 1 && fresh.revision >= initial_revision
            &&& fresh.revision == 1 || fresh.revision == initial_revision
            &&& fresh.route_generation == 0 && fresh.media_generation == 0
        }),
{
}

/// The next number is one more, and the larger of two is an upper bound of both
/// that is one of them.
pub proof fn numbers_only_grow(left: u64, right: u64)
    ensures
        next(left) >= left,
        left < u64::MAX ==> next(left) == left + 1,
        larger(left, right) >= left && larger(left, right) >= right,
        larger(left, right) == left || larger(left, right) == right,
{
}

/// Every media status has contents of its own: those of a failure are its text, and
/// no two others look alike.
pub proof fn media_statuses_are_told_apart(left: MediaStatus, right: MediaStatus)
    ensures
        left@ == right@ <==> match (left, right) {
            (MediaStatus::Failed(first), MediaStatus::Failed(second)) => first@ == second@,
            (MediaStatus::Failed(_), _) => false,
            (_, MediaStatus::Failed(_)) => false,
            _ => left == right,
        },
        left@.state == MediaState::Running <==> left == MediaStatus::Running,
        left@.state == MediaState::Idle <==> left == MediaStatus::Idle,
        left@.state == MediaState::Suspended <==> left == MediaStatus::Suspended,
        left@.state == MediaState::Stopping <==> left == MediaStatus::Stopping,
        left@.state == MediaState::StartingCapture <==> left == MediaStatus::StartingCapture,
        left@.state == MediaState::StartingMedia <==> left == MediaStatus::StartingMedia,
        left@.state == MediaState::Reconfiguring <==> left == MediaStatus::Reconfiguring,
        left@.state == MediaState::Reconnecting <==> left == MediaStatus::Reconnecting,
        left matches MediaStatus::Failed(text) ==> left@.state == MediaState::Failed && left@.error
            == Some(text@),
{
}

} // verus!
