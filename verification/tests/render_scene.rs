use moonshine::compositor::popups::{refresh_popups, PopupRefresh, ShownPopup};
use moonshine::compositor::render_scene::{
    can_direct_scanout_scene, frame_period_nanos, override_render_elements,
    popup_surfaces_for_render, send_composited_frame_callbacks, ScenePopup, SceneWindow,
};
use moonshine::compositor::state::MoonshineCompositor;

const ROOT: u64 = 1;
const MENU: u64 = 2;
const SUBMENU: u64 = 3;

fn popup(surface: u64, offset: (i32, i32), mapped: bool) -> ScenePopup {
    ScenePopup {
        surface,
        offset_x: offset.0,
        offset_y: offset.1,
        geometry_x: 0,
        geometry_y: 0,
        mapped,
    }
}

fn window(handle: u64, popups: Vec<ScenePopup>) -> SceneWindow {
    SceneWindow { handle, x: 0, y: 0, toplevel: true, popups }
}

#[test]
fn mapped_popup_keeps_compositing_after_cursor_inactivity() {
    let scene = [window(ROOT, vec![popup(MENU, (40, 50), true)])];
    let drawn = popup_surfaces_for_render(&scene, false, Some(ROOT));
    assert!(
        !can_direct_scanout_scene(Some(4_000_000_000), &drawn),
        "a committed menu must remain visible when the streamed cursor fades out"
    );
}

#[test]
fn destroying_last_popup_restores_direct_scanout() {
    let mut c = MoonshineCompositor::new(800, 600);
    let mut scene = [window(ROOT, vec![popup(MENU, (40, 50), true)])];
    assert!(!can_direct_scanout_scene(None, &popup_surfaces_for_render(&scene, false, Some(ROOT))));
    c.targets.screen_dirty = false;

    let menu = ShownPopup { surface: MENU, parent: None, reactive: false };
    let mut grabs = vec![];
    for (surface, need) in refresh_popups(&[menu]) {
        assert_eq!((surface, need), (MENU, PopupRefresh::Dismiss));
        c.dismiss_popup_branch(&[], &mut grabs, surface);
        scene[0].popups.retain(|p| p.surface != surface);
    }

    assert!(c.targets.screen_dirty, "closing a stationary menu must repaint immediately");
    assert!(can_direct_scanout_scene(None, &popup_surfaces_for_render(&scene, false, Some(ROOT))));
    assert!(popup_surfaces_for_render(&scene, false, Some(ROOT)).is_empty());
}

#[test]
fn popup_without_a_buffer_does_not_disable_direct_scanout() {
    let scene = [window(ROOT, vec![popup(MENU, (40, 50), false)])];
    let drawn = popup_surfaces_for_render(&scene, false, Some(ROOT));
    assert!(can_direct_scanout_scene(None, &drawn));
    assert!(drawn.is_empty());
}

#[test]
fn override_scene_keeps_focused_nested_menus_in_front_to_back_order() {
    let scene = [
        window(ROOT, vec![popup(SUBMENU, (40 + 80, 50 + 20), true), popup(MENU, (40, 50), true)]),
        window(9, vec![popup(10, (5, 5), true)]),
    ];
    let drawn = popup_surfaces_for_render(&scene, true, Some(ROOT));
    assert_eq!(
        drawn,
        vec![(SUBMENU, (120, 70)), (MENU, (40, 50))],
        "WSI replaces the game buffer but must preserve that game's popup stack"
    );
    assert!(!can_direct_scanout_scene(None, &drawn));
}

#[test]
fn override_render_elements_import_popup_buffers_before_the_game_buffer() {
    let elements = override_render_elements(ROOT, &vec![(MENU, (40, 50))]);
    assert_eq!(elements.len(), 2, "both menu and replacement game buffer must reach the renderer");
    assert_eq!(elements[0], (MENU, (40, 50)));
    assert_eq!(elements[1], (ROOT, (0, 0)));
}

#[test]
fn popup_render_origin_accounts_for_client_side_window_geometry() {
    let menu = ScenePopup { geometry_x: 7, geometry_y: 9, ..popup(MENU, (70, 80), true) };
    let root = SceneWindow { x: 35, y: 45, ..window(ROOT, vec![menu]) };
    assert_eq!(
        popup_surfaces_for_render(&[root], false, Some(ROOT)),
        vec![(MENU, (98, 116))],
        "popup positioning is relative to parent window geometry, not buffer shadows"
    );
}

#[test]
fn inactive_override_surface_is_not_reported_as_presented() {
    let callbacks = send_composited_frame_callbacks(&vec![], false, Some(ROOT), &vec![]);
    assert!(
        !callbacks.presented.contains(&ROOT),
        "a hidden, inactive WSI surface was not presented"
    );
    assert!(!callbacks.frames.contains(&ROOT));
}

#[test]
fn detaching_popup_buffer_restores_direct_scanout() {
    let mut scene = [window(ROOT, vec![popup(MENU, (40, 50), true)])];
    assert!(!can_direct_scanout_scene(None, &popup_surfaces_for_render(&scene, false, Some(ROOT))));
    scene[0].popups[0].mapped = false;
    assert!(popup_surfaces_for_render(&scene, false, Some(ROOT)).is_empty());
    assert!(can_direct_scanout_scene(None, &popup_surfaces_for_render(&scene, false, Some(ROOT))));
}

#[test]
fn popups_of_all_toplevels_are_drawn_topmost_window_first() {
    let x11 = SceneWindow { toplevel: false, ..window(7, vec![popup(8, (1, 1), true)]) };
    let scene = [
        window(ROOT, vec![popup(MENU, (40, 50), true)]),
        window(9, vec![popup(10, (5, 5), true)]),
        x11,
    ];
    assert_eq!(
        popup_surfaces_for_render(&scene, false, Some(ROOT)),
        vec![(10, (5, 5)), (MENU, (40, 50))]
    );
    assert!(popup_surfaces_for_render(&scene, true, None).is_empty());
}

#[test]
fn a_visible_cursor_needs_composition() {
    assert!(!can_direct_scanout_scene(Some(0), &[]));
    assert!(!can_direct_scanout_scene(Some(3_000_000_000), &[]));
    assert!(can_direct_scanout_scene(Some(3_000_000_001), &[]));
}

#[test]
fn while_one_surface_stands_for_the_game_it_and_its_menus_are_presented() {
    let callbacks =
        send_composited_frame_callbacks(&vec![5, 6], true, Some(ROOT), &vec![(MENU, (40, 50))]);
    assert_eq!(callbacks.frames, vec![5, 6, ROOT]);
    assert_eq!(callbacks.presented, vec![ROOT, MENU]);
    let callbacks = send_composited_frame_callbacks(&vec![5, 6], false, None, &vec![(MENU, (40, 50))]);
    assert_eq!(callbacks.frames, vec![5, 6]);
    assert_eq!(callbacks.presented, vec![5, 6]);
    let callbacks = send_composited_frame_callbacks(&vec![5, 6], true, None, &vec![(MENU, (40, 50))]);
    assert_eq!(callbacks.frames, vec![5, 6]);
    assert!(callbacks.presented.is_empty());
}

#[test]
fn frames_are_shown_for_one_period_of_the_output() {
    assert_eq!(frame_period_nanos(Some(60_000)), 16_666_666);
    assert_eq!(frame_period_nanos(Some(0)), 1_000_000_000_000);
    assert_eq!(frame_period_nanos(Some(-5)), 1_000_000_000_000);
    assert_eq!(frame_period_nanos(None), 11_000_000);
}
