use pronk::display_state::{
    ActiveRoute, AttachmentState, DisplayRuntimeState, DisplayTopology, MediaState, MediaStatus,
    RouteState, RouteTarget, RoutedMode,
};
use pronk::nonzero::NonZeroU32;

fn target(crtc_id: u32) -> RouteTarget {
    RouteTarget::new(NonZeroU32::new(crtc_id).unwrap())
}

fn active_topology(width: u32) -> DisplayTopology {
    DisplayTopology::Attached {
        route: Some(ActiveRoute {
            target: target(7),
            mode: RoutedMode {
                width,
                height: 1080,
                refresh_millihz: 60_000,
                flags: 0,
            },
        }),
    }
}

#[test]
fn topology_is_revisioned_only_on_material_change() {
    let mut state = DisplayRuntimeState::attached(10);
    assert!(state.observe_topology(active_topology(1920)));
    assert_eq!(state.revision(), 11);
    assert_eq!(
        state.route(),
        RouteState::Active(ActiveRoute {
            target: target(7),
            mode: RoutedMode {
                width: 1920,
                height: 1080,
                refresh_millihz: 60_000,
                flags: 0,
            },
        })
    );
    assert_eq!(state.route_generation(), 1);
    assert!(!state.observe_topology(active_topology(1920)));
    assert_eq!(state.revision(), 11);
    assert_eq!(state.route_generation(), 1);

    assert!(state.observe_topology(active_topology(1280)));
    assert_eq!(state.revision(), 12);
    assert_eq!(state.route_generation(), 2);
}

#[test]
fn a_same_mode_route_target_change_is_material() {
    let mut state = DisplayRuntimeState::attached(1);
    state.observe_topology(active_topology(1920));
    let mut moved = active_topology(1920);
    let DisplayTopology::Attached { route: Some(route) } = &mut moved else {
        unreachable!("test topology is active");
    };
    route.target = target(8);

    assert!(state.observe_topology(moved));
    assert_eq!(state.route_generation(), 2);
}

#[test]
fn detachment_clears_an_active_route_but_not_child_media_by_fiat() {
    let mut state = DisplayRuntimeState::attached(1);
    state.observe_topology(active_topology(1920));
    state.observe_media(1, MediaStatus::Running);
    let revision = state.revision();

    assert!(state.observe_topology(DisplayTopology::Detached));
    assert_eq!(state.attachment(), AttachmentState::Detached);
    assert_eq!(state.route(), RouteState::Disabled);
    assert_eq!(state.media_generation(), 1);
    assert_eq!(state.media(), MediaState::Running);
    assert_eq!(state.revision(), revision + 1);
    assert_eq!(state.route_generation(), 2);
}

#[test]
fn attachment_changes_without_a_route_do_not_advance_route_generation() {
    let mut state = DisplayRuntimeState::attached(1);
    for topology in [
        DisplayTopology::Detached,
        DisplayTopology::Unknown,
        DisplayTopology::Attached { route: None },
    ] {
        assert!(state.observe_topology(topology));
        assert_eq!(state.route(), RouteState::Disabled);
        assert_eq!(state.route_generation(), 0);
    }
    assert_eq!(state.attachment(), AttachmentState::Attached);
}

#[test]
fn media_errors_are_cleared_by_a_successful_transition() {
    let mut state = DisplayRuntimeState::attached(1);
    assert!(state.observe_media(1, MediaStatus::Failed("network lost".into())));
    assert!(state.observe_media(2, MediaStatus::StartingCapture));
    assert_eq!(state.media_generation(), 2);
    assert_eq!(state.last_error(), None);
    assert!(!state.observe_media(2, MediaStatus::StartingCapture));
}

#[test]
fn older_media_generations_cannot_replace_a_newer_projection() {
    let mut state = DisplayRuntimeState::attached(1);
    state.observe_media(2, MediaStatus::Running);
    let revision = state.revision();

    assert!(!state.observe_media(1, MediaStatus::Failed("stale".into())));
    assert_eq!(state.media_generation(), 2);
    assert_eq!(state.media(), MediaState::Running);
    assert_eq!(state.revision(), revision);
}

#[test]
fn revisions_saturate_at_the_largest_number() {
    let mut state = DisplayRuntimeState::attached(u64::MAX);
    assert!(state.observe_topology(DisplayTopology::Detached));
    assert_eq!(state.revision(), u64::MAX);
    state.advance_for_external_change(5);
    assert_eq!(state.revision(), u64::MAX);
}

#[test]
fn a_fresh_display_has_at_least_the_first_revision() {
    let mut state = DisplayRuntimeState::attached(0);
    assert_eq!(state.revision(), 1);
    assert_eq!(state.topology(), DisplayTopology::Attached { route: None });
    state.advance_to_at_least(9);
    assert_eq!(state.revision(), 9);
    state.advance_to_at_least(3);
    assert_eq!(state.revision(), 9);
    state.advance_for_external_change(4);
    assert_eq!(state.revision(), 10);
    state.advance_for_external_change(40);
    assert_eq!(state.revision(), 40);
}

#[test]
fn only_a_failure_has_a_diagnostic() {
    let failed = MediaStatus::Failed("lost".into());
    assert_eq!(failed.state(), MediaState::Failed);
    assert_eq!(failed.error(), Some("lost"));
    assert_eq!(MediaStatus::Reconnecting.error(), None);
    assert!(failed.same(&failed.clone()));
    assert!(!failed.same(&MediaStatus::Failed("other".into())));
    assert!(!MediaStatus::Idle.same(&MediaStatus::Stopping));
}
