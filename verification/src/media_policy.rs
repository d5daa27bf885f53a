//! What the media policy of a display is told.

use crate::display_state::{
    ActiveRoute, DisplayGrantState, DisplayRuntimeState, DisplayTopology, RouteState, RuntimeView,
};
use crate::media_session::MediaRoute;
use vstd::prelude::*;

verus! {

/// Whether a device session can carry media.
#[derive(Debug, Clone, Copy, PartialEq, Eq, Structural)]
pub enum DeviceSessionReadiness {
    Ready,
    Available,
    Unavailable,
}

#[derive(Debug, Clone, Copy, PartialEq, Eq, Structural)]
pub enum MediaPolicyTopology {
    Unrouted,
    Routed(MediaRoute),
    Detached,
    Unknown,
}

#[derive(Debug, Clone, Copy, PartialEq, Eq, Structural)]
pub struct MediaPolicyInput {
    pub topology: MediaPolicyTopology,
    pub grant: DisplayGrantState,
    pub device_session: DeviceSessionReadiness,
    pub device_session_generation: u64,
}

/// The route that media would show, if the display has one.
pub open spec fn route_of(runtime: RuntimeView) -> Option<MediaRoute> {
    match runtime.topology.spec_route() {
        RouteState::Active(route) => Some(
            MediaRoute {
                route_generation: runtime.route_generation,
                target: route.target,
                mode: route.mode,
            },
        ),
        RouteState::Disabled => None,
    }
}

impl MediaRoute {
    pub fn from_display_state(runtime: &DisplayRuntimeState) -> (route: Option<MediaRoute>)
        ensures
            route == route_of(runtime@),
    {
        match runtime.route() {
            RouteState::Active(route) => Some(
                MediaRoute {
                    route_generation: runtime.route_generation(),
                    target: route.target,
                    mode: route.mode,
                },
            ),
            RouteState::Disabled => None,
        }
    }
}

/// Media would show a route exactly where the connector is attached and driven: its
/// controller and its mode, under the generation of the route.
pub proof fn media_routes_follow_the_connector(runtime: RuntimeView)
    ensures
        route_of(runtime) is Some <==> (runtime.topology matches DisplayTopology::Attached { route }
            && route is Some),
        route_of(runtime) matches Some(route) ==> {
            &&& runtime.topology == (DisplayTopology::Attached {
                route: Some(ActiveRoute { target: route.target, mode: route.mode }),
            })
            &&& route.route_generation == runtime.route_generation
        },
{
}

} // verus!
