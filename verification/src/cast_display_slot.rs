//! The state of one added display and of its device session.

pub mod end_sequence;
pub mod runtime;

use crate::display::{AddedCastDisplaySnapshot, CastDisplayId, SnapshotView};
use crate::display_state::{
    larger, next, AttachmentState, DisplayGrantState, DisplayRuntimeState, DisplayTopology,
    MediaState, MediaStatus, RuntimeView, StatusView,
};
use crate::kernel_display_port::{
    KernelDisplayEvent, KernelDisplayMetadata, KernelDisplayObservation, KernelEventView,
};
use crate::media_policy::{
    route_of, DeviceSessionReadiness, MediaPolicyInput, MediaPolicyTopology,
};
use crate::media_session::MediaRoute;
use crate::nonzero::{nonzero_u64_ext, NonZeroU64};
use crate::output::CastKmsOutput;
use crate::preparation::PreparedCastDevice;
use crate::protocol::{DeviceAvailability, DeviceInfo, DeviceView};
use vstd::prelude::*;

verus! {

broadcast use nonzero_u64_ext;

/// Why a slot could not be asked.
#[derive(Debug, Clone, Copy, PartialEq, Eq, Structural)]
pub enum CastDisplaySlotError {
    NoRuntime,
    Stopped,
}

impl CastDisplaySlotError {
    /// The error as one line.
    pub open spec fn text(self) -> Seq<char> {
        match self {
            CastDisplaySlotError::NoRuntime =>
                "CastDisplaySlotActor requires a running Tokio runtime"@,
            CastDisplaySlotError::Stopped => "cast-display slot actor stopped"@,
        }
    }

    pub fn to_text(&self) -> (text: String)
        ensures
            text@ == self.text(),
    {
        match self {
            CastDisplaySlotError::NoRuntime =>
                "CastDisplaySlotActor requires a running Tokio runtime".to_owned(),
            CastDisplaySlotError::Stopped => "cast-display slot actor stopped".to_owned(),
        }
    }
}

/// The device record that a pending recovery was asked for.
#[derive(Debug, Clone, Copy, PartialEq, Eq, Structural)]
pub struct PendingSessionRequest {
    pub request_generation: u64,
    pub connection_generation: u64,
    pub discovery_generation: u64,
    pub device_revision: u64,
}

/// The request for a device.
pub open spec fn request_for(request_generation: u64, device: DeviceView) -> PendingSessionRequest {
    PendingSessionRequest {
        request_generation,
        connection_generation: device.connection_generation,
        discovery_generation: device.discovery_generation,
        device_revision: device.device_revision,
    }
}

impl PendingSessionRequest {
    pub fn new(request_generation: u64, device: &DeviceInfo) -> (request: Self)
        ensures
            request == request_for(request_generation, device@),
    {
        PendingSessionRequest {
            request_generation,
            connection_generation: device.connection_generation,
            discovery_generation: device.discovery_generation,
            device_revision: device.device_revision,
        }
    }
}

/// How a display stands with its device session.
#[derive(Debug, Clone, Copy, PartialEq, Eq, Structural)]
pub enum DeviceSessionPolicyState {
    Ready { bound_connection_generation: u64, session_generation: u64 },
    Recovering { request: PendingSessionRequest, last_session_generation: u64 },
    Unavailable { last_session_generation: u64 },
}

/// What to do about a device session.
#[derive(Debug, PartialEq, Eq)]
pub enum DeviceSessionAction {
    Cancel,
    Recover(DeviceInfo),
}

impl DeviceSessionPolicyState {
    pub open spec fn generation(self) -> u64 {
        match self {
            DeviceSessionPolicyState::Ready { session_generation, .. } => session_generation,
            DeviceSessionPolicyState::Recovering { last_session_generation, .. } =>
                last_session_generation,
            DeviceSessionPolicyState::Unavailable { last_session_generation } =>
                last_session_generation,
        }
    }

    /// An observation of the device leaves the session alone: passive discovery
    /// does not replace a live session, nor a pending request for the very same
    /// record.
    pub open spec fn keeps(self, device: DeviceView) -> bool {
        match self {
            DeviceSessionPolicyState::Ready { bound_connection_generation, .. } =>
                bound_connection_generation == device.connection_generation,
            DeviceSessionPolicyState::Recovering { request, .. } => device.availability
                == DeviceAvailability::Available && request == request_for(
                request.request_generation,
                device,
            ),
            DeviceSessionPolicyState::Unavailable { .. } => false,
        }
    }

    /// The pending request is this one.
    pub open spec fn awaits(self, request_generation: u64, device: DeviceView) -> bool {
        self matches DeviceSessionPolicyState::Recovering { request, .. } && request
            == request_for(request_generation, device)
    }

    pub fn new(device: &DeviceInfo, ready: bool, session_generation: u64) -> (state: Self)
        ensures
            state == (if ready {
                DeviceSessionPolicyState::Ready {
                    bound_connection_generation: device@.connection_generation,
                    session_generation,
                }
            } else {
                DeviceSessionPolicyState::Unavailable {
                    last_session_generation: session_generation,
                }
            }),
    {
        if ready {
            DeviceSessionPolicyState::Ready {
                bound_connection_generation: device.connection_generation,
                session_generation,
            }
        } else {
            DeviceSessionPolicyState::Unavailable { last_session_generation: session_generation }
        }
    }

    pub fn is_ready(&self) -> (ready: bool)
        ensures
            ready == (*self is Ready),
    {
        matches!(self, DeviceSessionPolicyState::Ready { .. })
    }

    pub fn session_generation(&self) -> (generation: u64)
        ensures
            generation == self.generation(),
    {
        match self {
            DeviceSessionPolicyState::Ready { session_generation, .. } => *session_generation,
            DeviceSessionPolicyState::Recovering { last_session_generation, .. }
            | DeviceSessionPolicyState::Unavailable { last_session_generation } => {
                *last_session_generation
            },
        }
    }

    /// Take in the current record of the device.
    ///
    /// A live session reports its own failure; recovery can then use the
    /// freshest record.
    pub fn observe_device(&mut self, device: &DeviceInfo) -> (action: Option<DeviceSessionAction>)
        ensures
            old(self).keeps(device@) ==> action is None && *final(self) == *old(self),
            !old(self).keeps(device@) ==> {
                &&& *final(self) == (DeviceSessionPolicyState::Unavailable {
                    last_session_generation: old(self).generation(),
                })
                &&& if device@.availability == DeviceAvailability::Available {
                    action matches Some(DeviceSessionAction::Recover(target)) && target@ == device@
                } else {
                    action == Some(DeviceSessionAction::Cancel)
                }
            },
    {
        let keeps = match self {
            DeviceSessionPolicyState::Ready { bound_connection_generation, .. } => {
                *bound_connection_generation == device.connection_generation
            },
            DeviceSessionPolicyState::Recovering { request, .. } => device.availability
                == DeviceAvailability::Available && request.connection_generation
                == device.connection_generation && request.discovery_generation
                == device.discovery_generation && request.device_revision
                == device.device_revision,
            DeviceSessionPolicyState::Unavailable { .. } => false,
        };
        if keeps {
            return None;
        }
        let last_session_generation: u64 = self.session_generation();
        *self = DeviceSessionPolicyState::Unavailable { last_session_generation };
        if device.availability != DeviceAvailability::Available {
            return Some(DeviceSessionAction::Cancel);
        }
        Some(DeviceSessionAction::Recover(device.clone()))
    }

    pub open spec fn spec_readiness(self, device: DeviceView) -> DeviceSessionReadiness {
        if self is Ready {
            DeviceSessionReadiness::Ready
        } else if device.availability == DeviceAvailability::Available {
            DeviceSessionReadiness::Available
        } else {
            DeviceSessionReadiness::Unavailable
        }
    }

    pub fn readiness(&self, device: &DeviceInfo) -> (readiness: DeviceSessionReadiness)
        ensures
            readiness == self.spec_readiness(device@),
    {
        if self.is_ready() {
            DeviceSessionReadiness::Ready
        } else if device.availability == DeviceAvailability::Available {
            DeviceSessionReadiness::Available
        } else {
            DeviceSessionReadiness::Unavailable
        }
    }

    pub fn begin_request(&mut self, request_generation: u64, device: &DeviceInfo)
        ensures
            *final(self) == (DeviceSessionPolicyState::Recovering {
                request: request_for(request_generation, device@),
                last_session_generation: old(self).generation(),
            }),
    {
        let last_session_generation: u64 = self.session_generation();
        *self = DeviceSessionPolicyState::Recovering {
            request: PendingSessionRequest::new(request_generation, device),
            last_session_generation,
        };
    }

    /// Take in a recovered session, if it is the one that is waited for and the
    /// device is still as it was then.
    pub fn complete_request(
        &mut self,
        request_generation: u64,
        recovered: &DeviceInfo,
        session_generation: u64,
        current: &DeviceInfo,
    ) -> (completed: bool)
        ensures
            completed == (old(self).awaits(request_generation, recovered@) && recovered@
                == current@ && current@.availability == DeviceAvailability::Available),
            *final(self) == (if completed {
                DeviceSessionPolicyState::Ready {
                    bound_connection_generation: recovered@.connection_generation,
                    session_generation,
                }
            } else {
                *old(self)
            }),
    {
        if !self.awaits_request(request_generation, recovered) || !recovered.same(current)
            || current.availability != DeviceAvailability::Available {
            return false;
        }
        *self = DeviceSessionPolicyState::Ready {
            bound_connection_generation: recovered.connection_generation,
            session_generation,
        };
        true
    }

    fn awaits_request(&self, request_generation: u64, device: &DeviceInfo) -> (awaited: bool)
        ensures
            awaited == self.awaits(request_generation, device@),
    {
        match self {
            DeviceSessionPolicyState::Recovering { request, .. } => *request
                == PendingSessionRequest::new(request_generation, device),
            _ => false,
        }
    }

    /// Take in the failure of a recovery, if it is the one that is waited for.
    pub fn fail_request(&mut self, request_generation: u64, device: &DeviceInfo) -> (failed: bool)
        ensures
            failed == old(self).awaits(request_generation, device@),
            *final(self) == (if failed {
                DeviceSessionPolicyState::Unavailable {
                    last_session_generation: old(self).generation(),
                }
            } else {
                *old(self)
            }),
    {
        if !self.awaits_request(request_generation, device) {
            return false;
        }
        let last_session_generation: u64 = self.session_generation();
        *self = DeviceSessionPolicyState::Unavailable { last_session_generation };
        true
    }

    /// Take in the failure of a session, if it is the live one.
    pub fn transport_failed(&mut self, session_generation: u64) -> (failed: bool)
        ensures
            failed == (*old(self) matches DeviceSessionPolicyState::Ready {
                session_generation: current,
                ..
            } && current == session_generation),
            *final(self) == (if failed {
                DeviceSessionPolicyState::Unavailable {
                    last_session_generation: session_generation,
                }
            } else {
                *old(self)
            }),
    {
        let live = match self {
            DeviceSessionPolicyState::Ready { session_generation: current, .. } => *current
                == session_generation,
            _ => false,
        };
        if !live {
            return false;
        }
        *self = DeviceSessionPolicyState::Unavailable {
            last_session_generation: session_generation,
        };
        true
    }
}

/// What the media policy is told about a display.
///
/// A live session is stronger evidence of reachability than a passive record:
/// an expired record must not tear down healthy media.
pub open spec fn policy_input(
    snapshot: SnapshotView,
    session: DeviceSessionPolicyState,
) -> MediaPolicyInput {
    MediaPolicyInput {
        topology: match snapshot.runtime.topology.spec_attachment() {
            AttachmentState::Attached => match route_of(snapshot.runtime) {
                Some(route) => MediaPolicyTopology::Routed(route),
                None => MediaPolicyTopology::Unrouted,
            },
            AttachmentState::Detached => MediaPolicyTopology::Detached,
            AttachmentState::Unknown => MediaPolicyTopology::Unknown,
        },
        grant: snapshot.grant_state,
        device_session: session.spec_readiness(snapshot.device),
        device_session_generation: session.generation(),
    }
}

pub fn media_policy_input(
    snapshot: &AddedCastDisplaySnapshot,
    device_session: &DeviceSessionPolicyState,
) -> (input: MediaPolicyInput)
    ensures
        input == policy_input(snapshot@, *device_session),
{
    MediaPolicyInput {
        topology: match snapshot.runtime.attachment() {
            AttachmentState::Attached => match MediaRoute::from_display_state(&snapshot.runtime) {
                Some(route) => MediaPolicyTopology::Routed(route),
                None => MediaPolicyTopology::Unrouted,
            },
            AttachmentState::Detached => MediaPolicyTopology::Detached,
            AttachmentState::Unknown => MediaPolicyTopology::Unknown,
        },
        grant: snapshot.grant_state,
        device_session: device_session.readiness(&snapshot.device),
        device_session_generation: device_session.session_generation(),
    }
}

/// The first snapshot of a display, in plain terms.
pub open spec fn first_snapshot(
    display_id: Seq<u8>,
    state_revision: u64,
    device: DeviceView,
    prepared: PreparedCastDevice,
    output: CastKmsOutput,
    metadata: KernelDisplayMetadata,
    observation: KernelDisplayObservation,
) -> SnapshotView {
    let runtime = RuntimeView::fresh(state_revision).with_topology(observation.topology);
    SnapshotView {
        display_id,
        state_revision: runtime.revision,
        device,
        prepared,
        output,
        kernel_session_id: metadata.session_id,
        grant_state: observation.grant_state,
        runtime,
    }
}

/// The first snapshot of a display.
pub fn initial_snapshot(
    display_id: CastDisplayId,
    state_revision: u64,
    device: DeviceInfo,
    prepared: PreparedCastDevice,
    output: CastKmsOutput,
    metadata: KernelDisplayMetadata,
    observation: KernelDisplayObservation,
) -> (snapshot: AddedCastDisplaySnapshot)
    ensures
        snapshot@ == first_snapshot(
            display_id@,
            state_revision,
            device@,
            prepared,
            output,
            metadata,
            observation,
        ),
{
    let mut runtime = DisplayRuntimeState::attached(state_revision);
    runtime.observe_topology(observation.topology);
    AddedCastDisplaySnapshot {
        display_id,
        state_revision: runtime.revision(),
        device,
        prepared,
        output,
        kernel_session_id: metadata.session_id,
        grant_state: observation.grant_state,
        runtime,
    }
}

/// A snapshot that follows its runtime state.
pub open spec fn with_runtime(snapshot: SnapshotView, runtime: RuntimeView) -> SnapshotView {
    SnapshotView { state_revision: runtime.revision, runtime, ..snapshot }
}

/// The failed media status with a diagnostic.
pub open spec fn failed_status(error: Seq<char>) -> StatusView {
    StatusView { state: MediaState::Failed, error: Some(error) }
}

/// A snapshot whose media has failed.
pub open spec fn with_media_failure(snapshot: SnapshotView, diagnostic: Seq<char>) -> SnapshotView {
    with_runtime(
        snapshot,
        snapshot.runtime.with_media(
            snapshot.runtime.media_generation,
            failed_status(diagnostic),
        ),
    )
}

/// Note the failure of the current media.
pub fn publish_media_failure(snapshot: &mut AddedCastDisplaySnapshot, diagnostic: &str)
    ensures
        final(snapshot)@ == with_media_failure(old(snapshot)@, diagnostic@),
{
    let media_generation: u64 = snapshot.runtime.media_generation();
    snapshot.runtime.observe_media(media_generation, MediaStatus::Failed(diagnostic.to_owned()));
    snapshot.state_revision = snapshot.runtime.revision();
}

/// A snapshot with the current record of its device.
pub open spec fn with_device(snapshot: SnapshotView, device: DeviceView) -> SnapshotView {
    if snapshot.device == device {
        snapshot
    } else {
        let revision = larger(next(snapshot.runtime.revision), device.device_revision);
        SnapshotView {
            state_revision: revision,
            device,
            runtime: RuntimeView { revision, ..snapshot.runtime },
            ..snapshot
        }
    }
}

/// Take in the current record of the device.
pub fn update_device(snapshot: &mut AddedCastDisplaySnapshot, device: DeviceInfo) -> (changed: bool)
    ensures
        changed == (old(snapshot)@.device != device@),
        final(snapshot)@ == with_device(old(snapshot)@, device@),
{
    if snapshot.device.same(&device) {
        return false;
    }
    snapshot.runtime.advance_for_external_change(device.device_revision);
    snapshot.state_revision = snapshot.runtime.revision();
    snapshot.device = device;
    true
}

/// A runtime state that advances for a change that it does not hold.
pub open spec fn advanced(runtime: RuntimeView) -> RuntimeView {
    RuntimeView { revision: next(runtime.revision), ..runtime }
}

/// The runtime state after an observation with another grant.
pub open spec fn observed_with(
    runtime: RuntimeView,
    topology: DisplayTopology,
    grant_changed: bool,
) -> RuntimeView {
    if grant_changed && runtime.topology == topology {
        advanced(runtime)
    } else {
        runtime.with_topology(topology)
    }
}

/// A media failure concerns the current generation: it names that one, or none.
pub open spec fn concerns(media_generation: Option<NonZeroU64>, current: u64) -> bool {
    media_generation matches Some(generation) ==> generation@ == current
}

/// The runtime state and the grant after an event of the kernel display, and
/// whether they changed.
pub open spec fn kernel_observed(
    runtime: RuntimeView,
    grant: DisplayGrantState,
    event: KernelEventView,
) -> (RuntimeView, DisplayGrantState, bool) {
    match event {
        KernelEventView::Changed(observation) => (
            observed_with(runtime, observation.topology, grant != observation.grant_state),
            observation.grant_state,
            grant != observation.grant_state || runtime.topology != observation.topology,
        ),
        KernelEventView::Revoked => {
            let detached = observed_with(
                runtime,
                DisplayTopology::Detached,
                grant != DisplayGrantState::Revoked,
            );
            let status = failed_status("CastKMS grant was revoked"@);
            (
                detached.with_media(runtime.media_generation, status),
                DisplayGrantState::Revoked,
                grant != DisplayGrantState::Revoked || runtime.topology
                    != DisplayTopology::Detached || runtime.media != status,
            )
        },
        KernelEventView::MediaFailed { media_generation, error } => if concerns(
            media_generation,
            runtime.media_generation,
        ) {
            (
                runtime.with_media(runtime.media_generation, failed_status(error)),
                grant,
                runtime.media != failed_status(error),
            )
        } else {
            (runtime, grant, false)
        },
    }
}

/// Take in an event of the kernel display.
pub fn observe_kernel_event(
    runtime: &mut DisplayRuntimeState,
    grant: &mut DisplayGrantState,
    event: KernelDisplayEvent,
) -> (changed: bool)
    ensures
        (final(runtime)@, *final(grant), changed) == kernel_observed(
            old(runtime)@,
            *old(grant),
            event@,
        ),
{
    match event {
        KernelDisplayEvent::Changed(observation) => {
            let grant_changed = *grant != observation.grant_state;
            let topology_changed = runtime.observe_topology(observation.topology);
            *grant = observation.grant_state;
            if grant_changed && !topology_changed {
                runtime.advance_for_external_change(0);
            }
            grant_changed || topology_changed
        },
        KernelDisplayEvent::Revoked => {
            let grant_changed = *grant != DisplayGrantState::Revoked;
            *grant = DisplayGrantState::Revoked;
            let topology_changed = runtime.observe_topology(DisplayTopology::Detached);
            if grant_changed && !topology_changed {
                runtime.advance_for_external_change(0);
            }
            let media_generation: u64 = runtime.media_generation();
            let media_changed = runtime.observe_media(
                media_generation,
                MediaStatus::Failed("CastKMS grant was revoked".to_owned()),
            );
            grant_changed || topology_changed || media_changed
        },
        KernelDisplayEvent::MediaFailed { media_generation, error } => {
            let current: u64 = runtime.media_generation();
            let concerned = match media_generation {
                Some(generation) => generation.get() == current,
                None => true,
            };
            if concerned {
                runtime.observe_media(current, MediaStatus::Failed(error))
            } else {
                false
            }
        },
    }
}

/// The diagnostic of a media failure that concerns the current generation.
pub fn current_media_failure(current: u64, event: &KernelDisplayEvent) -> (failure: Option<String>)
    ensures
        match event@ {
            KernelEventView::MediaFailed { media_generation, error } => if concerns(
                media_generation,
                current,
            ) {
                failure is Some && failure->0@ == error
            } else {
                failure is None
            },
            _ => failure is None,
        },
{
    match event {
        KernelDisplayEvent::MediaFailed { media_generation, error } => {
            let concerned = match media_generation {
                Some(generation) => generation.get() == current,
                None => true,
            };
            if concerned {
                Some(error.clone())
            } else {
                None
            }
        },
        _ => None,
    }
}

/// Take in an event of the kernel display; the snapshot follows.
pub fn apply_kernel_event(snapshot: &mut AddedCastDisplaySnapshot, event: KernelDisplayEvent) -> (
changed: bool)
    ensures
        ({
            let (runtime, grant_state, news) = kernel_observed(
                old(snapshot)@.runtime,
                old(snapshot)@.grant_state,
                event@,
            );
            &&& changed == news
            &&& final(snapshot)@ == (SnapshotView {
                runtime,
                grant_state,
                state_revision: if news {
                    runtime.revision
                } else {
                    old(snapshot)@.state_revision
                },
                ..old(snapshot)@
            })
        }),
{
    let changed = observe_kernel_event(&mut snapshot.runtime, &mut snapshot.grant_state, event);
    if changed {
        snapshot.state_revision = snapshot.runtime.revision();
    }
    changed
}

/// Seeing the same event again changes nothing.
pub proof fn repeated_kernel_events_change_nothing(
    runtime: RuntimeView,
    grant: DisplayGrantState,
    event: KernelEventView,
)
    ensures
        ({
            let (after, after_grant, changed) = kernel_observed(runtime, grant, event);
            kernel_observed(after, after_grant, event) == (after, after_grant, false)
        }),
{
}

/// An event that changes nothing leaves no trace, and one that does change
/// something advances the revision, below its limit.
pub proof fn kernel_events_tell_their_changes(
    runtime: RuntimeView,
    grant: DisplayGrantState,
    event: KernelEventView,
)
    ensures
        ({
            let (after, after_grant, changed) = kernel_observed(runtime, grant, event);
            &&& !changed ==> after == runtime && after_grant == grant
            &&& changed && runtime.revision < u64::MAX ==> after.revision > runtime.revision
        }),
{
}

/// A failure of another generation than the current one is ignored.
pub proof fn foreign_media_failures_are_ignored(
    runtime: RuntimeView,
    grant: DisplayGrantState,
    generation: NonZeroU64,
    error: Seq<char>,
)
    requires
        generation@ != runtime.media_generation,
    ensures
        kernel_observed(
            runtime,
            grant,
            KernelEventView::MediaFailed { media_generation: Some(generation), error },
        ) == (runtime, grant, false),
{
}

/// After a revocation the display has no route, and its media has failed.
pub proof fn revocation_is_final(runtime: RuntimeView, grant: DisplayGrantState)
    ensures
        ({
            let (after, after_grant, _) = kernel_observed(runtime, grant, KernelEventView::Revoked);
            &&& after_grant == DisplayGrantState::Revoked
            &&& after.topology == DisplayTopology::Detached
            &&& after.media.state == MediaState::Failed
        }),
{
}

/// A live session is kept, and counts as ready, whatever discovery says of the
/// device while its backend connection stays the same.
pub proof fn kept_sessions_survive_discovery(
    state: DeviceSessionPolicyState,
    device: DeviceView,
)
    requires
        state matches DeviceSessionPolicyState::Ready { bound_connection_generation, .. }
            && bound_connection_generation == device.connection_generation,
    ensures
        state.keeps(device),
        state.spec_readiness(device) == DeviceSessionReadiness::Ready,
{
}

/// The media policy is told what the display shows: a route exactly where the
/// connector is attached and driven, and then that route's controller and mode under
/// the current route generation; and each other state of the connector as itself.
pub proof fn policies_are_told_the_route(
    snapshot: SnapshotView,
    session: DeviceSessionPolicyState,
)
    ensures
        match snapshot.runtime.topology {
            DisplayTopology::Attached { route: Some(route) } => policy_input(
                snapshot,
                session,
            ).topology matches MediaPolicyTopology::Routed(told) && told.target == route.target
                && told.mode == route.mode && told.route_generation
                == snapshot.runtime.route_generation,
            DisplayTopology::Attached { route: None } => policy_input(snapshot, session).topology
                == MediaPolicyTopology::Unrouted,
            DisplayTopology::Detached => policy_input(snapshot, session).topology
                == MediaPolicyTopology::Detached,
            DisplayTopology::Unknown => policy_input(snapshot, session).topology
                == MediaPolicyTopology::Unknown,
        },
        policy_input(snapshot, session).grant == snapshot.grant_state,
{
}

/// The media policy is told of a session by what it can be used for: it is ready
/// only while it lives; without one the device is as reachable as its record says.
/// The generation is that of the last session there was.
pub proof fn policies_are_told_the_session(
    snapshot: SnapshotView,
    session: DeviceSessionPolicyState,
)
    ensures
        ({
            let input = policy_input(snapshot, session);
            &&& input.device_session == DeviceSessionReadiness::Ready <==> session is Ready
            &&& input.device_session == DeviceSessionReadiness::Available <==> !(session is Ready)
                && snapshot.device.availability == DeviceAvailability::Available
            &&& input.device_session == DeviceSessionReadiness::Unavailable <==> !(session
                is Ready) && snapshot.device.availability != DeviceAvailability::Available
            &&& match session {
                DeviceSessionPolicyState::Ready {
                    session_generation,
                    ..
                } => input.device_session_generation == session_generation,
                DeviceSessionPolicyState::Recovering {
                    last_session_generation,
                    ..
                } => input.device_session_generation == last_session_generation,
                DeviceSessionPolicyState::Unavailable {
                    last_session_generation,
                } => input.device_session_generation == last_session_generation,
            }
        }),
{
}

/// Two displays are told alike only if the policy has no reason to tell them apart.
pub proof fn different_routes_are_told_differently(
    left: SnapshotView,
    right: SnapshotView,
    session: DeviceSessionPolicyState,
)
    requires
        policy_input(left, session) == policy_input(right, session),
    ensures
        left.runtime.topology == right.runtime.topology,
        left.grant_state == right.grant_state,
        left.runtime.topology.spec_route() is Active ==> left.runtime.route_generation
            == right.runtime.route_generation,
{
    policies_are_told_the_route(left, session);
    policies_are_told_the_route(right, session);
}

/// A pending request is answered only by its own number, for the record of the
/// device that it was made for.
pub proof fn requests_are_answered_by_their_own(
    state: DeviceSessionPolicyState,
    request_generation: u64,
    device: DeviceView,
)
    ensures
        state.awaits(request_generation, device) <==> (state
            matches DeviceSessionPolicyState::Recovering { request, .. }
            && request.request_generation == request_generation
            && request.connection_generation == device.connection_generation
            && request.discovery_generation == device.discovery_generation
            && request.device_revision == device.device_revision),
{
}

/// A record of the device leaves the session alone exactly if the session lives on
/// the same connection, or is being recovered for this very record of a device that
/// can be reached.
pub proof fn sessions_are_kept_for_a_reason(state: DeviceSessionPolicyState, device: DeviceView)
    ensures
        state.keeps(device) <==> match state {
            DeviceSessionPolicyState::Ready {
                bound_connection_generation,
                ..
            } => bound_connection_generation == device.connection_generation,
            DeviceSessionPolicyState::Recovering { request, .. } => state.awaits(
                request.request_generation,
                device,
            ) && device.availability == DeviceAvailability::Available,
            DeviceSessionPolicyState::Unavailable { .. } => false,
        },
{
}

/// A new record of the device is what the display then has, under a revision that
/// is newer than before and no older than the record's own; nothing else changes.
pub proof fn device_records_advance_the_display(snapshot: SnapshotView, device: DeviceView)
    ensures
        ({
            let after = with_device(snapshot, device);
            &&& after.device == device
            &&& snapshot.device == device ==> after == snapshot
            &&& snapshot.device != device ==> {
                &&& after.state_revision == after.runtime.revision
                &&& snapshot.runtime.revision < u64::MAX ==> after.state_revision
                    > snapshot.runtime.revision
                &&& after.state_revision >= device.device_revision
                &&& after.runtime.topology == snapshot.runtime.topology
                &&& after.runtime.media == snapshot.runtime.media
                &&& after.runtime.media_generation == snapshot.runtime.media_generation
                &&& after.runtime.route_generation == snapshot.runtime.route_generation
            }
            &&& after.display_id == snapshot.display_id
            &&& after.grant_state == snapshot.grant_state
            &&& after.output == snapshot.output
            &&& after.prepared == snapshot.prepared
        }),
{
}

/// What the kernel shows of a display is what the display then has: its topology
/// and its grant, and not its media. A media failure that concerns the current
/// generation is what media then shows, and changes neither topology nor grant.
pub proof fn kernel_events_are_taken_as_told(
    runtime: RuntimeView,
    grant: DisplayGrantState,
    event: KernelEventView,
)
    ensures
        ({
            let (after, after_grant, changed) = kernel_observed(runtime, grant, event);
            &&& after.media_generation == runtime.media_generation
            &&& match event {
                KernelEventView::Changed(observation) => {
                    &&& after.topology == observation.topology
                    &&& after_grant == observation.grant_state
                    &&& after.media == runtime.media
                    &&& changed <==> runtime.topology != observation.topology || grant
                        != observation.grant_state
                },
                KernelEventView::Revoked => {
                    &&& after.topology == DisplayTopology::Detached
                    &&& after_grant == DisplayGrantState::Revoked
                    &&& after.media.error == Some("CastKMS grant was revoked"@)
                },
                KernelEventView::MediaFailed { media_generation, error } => {
                    &&& after.topology == runtime.topology
                    &&& after_grant == grant
                    &&& (media_generation is None || media_generation->0@
                        == runtime.media_generation) ==> after.media.state == MediaState::Failed
                        && after.media.error == Some(error)
                    &&& media_generation is Some && media_generation->0@
                        != runtime.media_generation ==> after == runtime && !changed
                },
            }
        }),
{
}

/// A display whose media has failed shows the diagnostic, for the generation that
/// it had, and is otherwise as it was.
pub proof fn media_failures_are_shown(snapshot: SnapshotView, diagnostic: Seq<char>)
    ensures
        ({
            let after = with_media_failure(snapshot, diagnostic);
            &&& after.runtime.media.state == MediaState::Failed
            &&& after.runtime.media.error == Some(diagnostic)
            &&& after.runtime.media_generation == snapshot.runtime.media_generation
            &&& after.runtime.topology == snapshot.runtime.topology
            &&& after.runtime.route_generation == snapshot.runtime.route_generation
            &&& after.state_revision == after.runtime.revision
            &&& after.device == snapshot.device
            &&& after.grant_state == snapshot.grant_state
            &&& after.display_id == snapshot.display_id
        }),
{
}

/// A display begins as it was set up and seen: its identity, its device, what was prepared, its
/// output and its session, with the grant and the connector as they are, and without media.
pub proof fn displays_begin_as_they_are(
    display_id: Seq<u8>,
    state_revision: u64,
    device: DeviceView,
    prepared: PreparedCastDevice,
    output: CastKmsOutput,
    metadata: KernelDisplayMetadata,
    observation: KernelDisplayObservation,
)
    ensures
        ({
            let first = first_snapshot(
                display_id,
                state_revision,
                device,
                prepared,
                output,
                metadata,
                observation,
            );
            &&& first.display_id == display_id
            &&& first.device == device
            &&& first.prepared == prepared
            &&& first.output == output
            &&& first.kernel_session_id == metadata.session_id
            &&& first.grant_state == observation.grant_state
            &&& first.runtime.topology == observation.topology
            &&& first.runtime.media.state is Idle
            &&& first.runtime.media.error is None
            &&& first.runtime.media_generation == 0
            &&& first.state_revision == first.runtime.revision
            &&& first.state_revision >= state_revision
        }),
{
}

/// The text of a failed slot says its kind.
pub proof fn slot_failures_say_their_kind(value: CastDisplaySlotError)
    ensures
        value is NoRuntime ==> "CastDisplaySlotActor requires a running Tokio runtime"@.is_prefix_of(value.text()),
        value is Stopped ==> "cast-display slot actor stopped"@.is_prefix_of(value.text()),
{
    let text = value.text();
    if value is NoRuntime {
        assert("CastDisplaySlotActor requires a running Tokio runtime"@ =~= text.subrange(
            0,
            "CastDisplaySlotActor requires a running Tokio runtime"@.len() as int,
        ));
    }
    if value is Stopped {
        assert("cast-display slot actor stopped"@ =~= text.subrange(
            0,
            "cast-display slot actor stopped"@.len() as int,
        ));
    }
}

} // verus!
