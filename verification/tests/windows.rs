use moonshine::compositor::departures::{configure_request, Unmapped};
use moonshine::compositor::focus::{
    FocusState, Rectangle, WindowFlags, WindowMetadata, EXTERNAL_OVERLAY, NOTIFICATION, OVERLAY,
    STREAMING_CLIENT, SYS_TRAY_ICON,
};
use moonshine::compositor::handlers::{
    OverrideMapped, WmWindowProperty, WmWindowType, X11Properties, X11Window,
};
use moonshine::compositor::policy::{build_candidates, pick_best_candidate, pick_flagged, pick_top, FocusControl};
use moonshine::compositor::refocus::{FocusAction, WindowReading, X11Live};
use moonshine::compositor::state::{metadata, MoonshineCompositor, Window};

fn x11(window_id: u32) -> X11Window {
    X11Window {
        window_id,
        override_redirect: false,
        transient_for: None,
        geometry: Rectangle { x: 0, y: 0, w: 640, h: 480 },
        fullscreen: false,
        input_hint: None,
        window_type: None,
    }
}

fn properties(app_id: u32) -> X11Properties {
    X11Properties { pid: 1000 + app_id, app_id, opacity: 255, ..X11Properties::none() }
}

fn live(readings: Vec<WindowReading>) -> X11Live {
    X11Live { readings, control: None }
}

/// A compositor with X11 windows 1 to `n`, known by handles 101 and so on, of
/// apps 11 and so on.
fn with_games(n: u32) -> MoonshineCompositor {
    let mut c = MoonshineCompositor::new(800, 600);
    for i in 1..=n {
        c.map_window_request(100 + i as u64, Some(200 + i as u64), &x11(i), Some(properties(10 + i)));
    }
    c
}

#[test]
fn metadata_follows_from_what_was_read() {
    let c = MoonshineCompositor::new(800, 600);
    let read = |w: X11Window, p: X11Properties| c.x11_surface_metadata(&w, Some(p));
    assert_eq!(read(x11(1), properties(12)).app_id, 12);
    assert_eq!(read(x11(1), X11Properties { pid: 0, ..properties(12) }).app_id, 0);
    assert_eq!(read(x11(1), X11Properties { big_picture: true, ..properties(0) }).app_id, 769);
    assert_eq!(c.x11_surface_metadata(&x11(1), None).app_id, 0);

    let wide = X11Window { geometry: Rectangle { x: 0, y: 0, w: 1201, h: 9 }, ..x11(1) };
    let steam = X11Properties { steam_overlay: 1, ..properties(0) };
    assert_eq!(read(wide, steam).flags.bits, OVERLAY);
    let narrow = X11Window { geometry: Rectangle { x: 0, y: 0, w: 1200, h: 9 }, ..x11(1) };
    assert_eq!(read(narrow, steam).flags.bits, NOTIFICATION);
    let special = X11Properties { external_overlay: true, streaming_client: true, ..properties(0) };
    assert_eq!(read(wide, special).flags.bits, EXTERNAL_OVERLAY | STREAMING_CLIENT);

    let menu = X11Window {
        override_redirect: true,
        transient_for: Some(9),
        window_type: Some(WmWindowType::Menu),
        ..x11(1)
    };
    let meta = read(menu, properties(0));
    assert!(meta.maybe_a_dropdown && meta.skip_taskbar && meta.skip_pager && !meta.is_dialog);
    let dot = X11Window { geometry: Rectangle { x: 0, y: 0, w: 1, h: 1 }, ..menu };
    assert!(!read(dot, properties(0)).maybe_a_dropdown);
    let dialog = X11Window { window_type: Some(WmWindowType::Dialog), input_hint: Some(false), ..x11(1) };
    let meta = read(dialog, properties(0));
    assert!(meta.is_dialog && meta.disabled && !meta.maybe_a_dropdown);
    let styled = read(x11(1), X11Properties { style: 0x8000_0000, ..properties(0) });
    assert!(styled.is_disabled() && styled.disabled);
}

#[test]
fn windows_are_put_on_top_in_the_order_of_their_mapping() {
    let mut c = with_games(2);
    c.new_toplevel(300, 400, 0, true);
    let handles: Vec<u64> = c.windows.iter().map(|w| w.handle).collect();
    assert_eq!(handles, vec![101, 102, 300]);
    let sequences: Vec<u64> = c.windows.iter().map(|w| w.meta.unwrap().map_sequence).collect();
    assert_eq!(sequences, vec![1, 2, 3]);
    let meta = metadata(&c.windows, 300).unwrap();
    assert_eq!(meta.geometry, Rectangle { x: 0, y: 0, w: 800, h: 600 });
    assert!(meta.fullscreen);
    assert!(metadata(&c.windows, 999).is_none());
}

#[test]
fn focus_goes_to_the_window_of_the_highest_rank() {
    let mut c = with_games(2);
    c.map_window_request(103, None, &x11(3), Some(properties(0)));
    let out = c.reevaluate_focus(Some(&live(vec![])));
    assert_eq!(c.targets.focused_x11_window, Some(2));
    assert_eq!(c.targets.pointer_focus_window, Some(102));
    assert!(!c.targets.focus_state.dirty);
    assert_eq!(out.apps, vec![11, 12]);
    assert_eq!(out.windows, vec![(1, 11, 0), (2, 12, 0), (3, 0, 0)]);
    assert_eq!(
        out.actions,
        vec![
            FocusAction::PublishFocusableApps,
            FocusAction::PublishFocusableWindows,
            FocusAction::SetFocusedApp { app_id: 12 },
            FocusAction::ClearDropdowns,
            FocusAction::KeyboardFocus { window: 102 },
            FocusAction::InputFocus { x11_window: 2 },
            FocusAction::PointerFocus { window: 102, surface: 202 },
        ]
    );
    let again = c.reevaluate_focus(None);
    assert_eq!(
        again.actions,
        vec![
            FocusAction::KeyboardFocus { window: 102 },
            FocusAction::PointerFocus { window: 102, surface: 202 },
        ]
    );
}

#[test]
fn without_windows_the_keyboard_is_let_go() {
    let mut c = MoonshineCompositor::new(800, 600);
    let out = c.reevaluate_focus(Some(&live(vec![])));
    assert_eq!(
        out.actions,
        vec![
            FocusAction::ClearFocusableApps,
            FocusAction::ClearFocusableWindows,
            FocusAction::ClearKeyboardFocus,
            FocusAction::ClearFocusedApp,
        ]
    );
    assert_eq!(c.reevaluate_focus(None).actions, vec![FocusAction::ClearKeyboardFocus]);
}

#[test]
fn a_request_is_met_once_and_kept_until_then() {
    let mut c = with_games(2);
    assert!(c.client_message_event("_NET_ACTIVE_WINDOW", 7, [0; 5]));
    c.reevaluate_focus(None);
    assert_eq!(c.targets.focused_x11_window, Some(2));
    assert_eq!(c.targets.focus_state.requested_focus, Some(7));
    assert!(c.client_message_event("_NET_ACTIVE_WINDOW", 1, [0; 5]));
    c.reevaluate_focus(None);
    assert_eq!(c.targets.focused_x11_window, Some(1));
    assert_eq!(c.targets.focus_state.requested_focus, None);
    c.reevaluate_focus(None);
    assert_eq!(c.targets.focused_x11_window, Some(2));
}

#[test]
fn steam_can_name_a_window_or_apps() {
    let c = with_games(3);
    let pick = |control: FocusControl| {
        let mut state = FocusState::default();
        pick_best_candidate(&c.windows, &mut state, Some(&control)).map(|w| w.handle)
    };
    assert_eq!(pick(FocusControl { window: Some(1), app_ids: vec![12] }), Some(101));
    assert_eq!(pick(FocusControl { window: Some(9), app_ids: vec![12, 11] }), Some(102));
    assert_eq!(pick(FocusControl { window: None, app_ids: vec![] }), None);
    assert_eq!(pick_top(&c.windows).unwrap().handle, 103);
    assert!(pick_top(&[]).is_none());
}

#[test]
fn special_windows_are_picked_by_opacity() {
    let window = |handle, bits, opacity| Window {
        handle,
        x11: None,
        toplevel: false,
        surface: None,
        meta: Some(WindowMetadata { flags: WindowFlags { bits }, opacity, ..Default::default() }),
    };
    let ws = [window(1, OVERLAY, 10), window(2, OVERLAY, 20), window(3, OVERLAY, 20), window(4, 0, 99)];
    assert_eq!(pick_flagged(&ws, OVERLAY), Some(3));
    assert_eq!(pick_flagged(&ws, NOTIFICATION), None);
    let handles: Vec<u64> = build_candidates(&ws).iter().map(|w| w.handle).collect();
    assert_eq!(handles, vec![4]);
}

#[test]
fn an_overlay_that_asks_for_input_gets_it() {
    let mut c = with_games(1);
    let wide = X11Window { geometry: Rectangle { x: 0, y: 0, w: 1920, h: 1080 }, ..x11(5) };
    let steam = X11Properties { steam_overlay: 1, ..properties(0) };
    c.map_window_request(105, Some(205), &wide, Some(steam));
    let reading = |mode| WindowReading { window: 5, input_focus_mode: mode, pid: 0, app_id: 0 };
    let targets = |c: &mut MoonshineCompositor, mode| {
        let out = c.reevaluate_focus(Some(&live(vec![reading(mode)])));
        let keyboard = out.actions.iter().find_map(|a| match a {
            FocusAction::KeyboardFocus { window } => Some(*window),
            _ => None,
        });
        (keyboard, c.targets.pointer_focus_window)
    };
    assert_eq!(targets(&mut c, 0), (Some(101), Some(101)));
    assert_eq!(targets(&mut c, 1), (Some(105), Some(105)));
    assert_eq!(targets(&mut c, 2), (Some(101), Some(105)));
    assert_eq!(c.targets.overlay_window, Some(105));
    assert_eq!(c.targets.focused_x11_window, Some(1));
}

#[test]
fn app_ids_are_taken_over_from_processes() {
    let mut c = with_games(1);
    c.map_window_request(102, None, &x11(2), Some(properties(0)));
    let reading = WindowReading { window: 2, input_focus_mode: 0, pid: 77, app_id: 730 };
    let out = c.reevaluate_focus(Some(&live(vec![reading])));
    assert_eq!(out.windows, vec![(1, 11, 0), (2, 730, 77)]);
    assert_eq!(c.targets.focused_x11_window, Some(2));
}

#[test]
fn a_transient_child_takes_the_focus() {
    let mut c = with_games(1);
    let dialog = X11Window { transient_for: Some(1), ..x11(2) };
    c.map_window_request(102, None, &dialog, Some(properties(0)));
    c.reevaluate_focus(None);
    assert_eq!(c.targets.focused_x11_window, Some(2));
    assert!(c.is_transient_of_focused(2) && !c.is_transient_of_focused(1));
    assert_eq!(c.transient_children.get(&1), Some(&vec![102]));
    let gone = c.unmapped_window(2);
    assert_eq!(gone, Unmapped { clear_dropdowns: false, clear_keyboard: true, reevaluate: true });
    assert_eq!(c.transient_children.get(&1), None);
    c.reevaluate_focus(None);
    assert_eq!(c.targets.focused_x11_window, Some(1));
    assert!(c.is_transient_of_focused(1));
}

#[test]
fn menus_of_the_focused_window_are_shown_where_they_are() {
    let mut c = with_games(1);
    c.reevaluate_focus(None);
    let menu = X11Window {
        override_redirect: true,
        transient_for: Some(1),
        geometry: Rectangle { x: 30, y: 40, w: 100, h: 80 },
        ..x11(2)
    };
    let map = |c: &mut MoonshineCompositor, w: &X11Window| {
        c.mapped_override_redirect_window(102, None, w, Some(properties(0)), (800, 600))
    };
    assert_eq!(map(&mut c, &menu), OverrideMapped::Dropdown { x: 30, y: 40 });
    let away = X11Window { window_id: 3, geometry: Rectangle { x: 800, y: 0, w: 9, h: 9 }, ..menu };
    assert_eq!(map(&mut c, &away), OverrideMapped::OffScreen);
    let other = X11Window { window_id: 4, transient_for: Some(99), ..menu };
    assert_eq!(map(&mut c, &other), OverrideMapped::Ignored);
    let dot = X11Window { window_id: 5, geometry: Rectangle { x: 0, y: 0, w: 1, h: 1 }, ..menu };
    assert_eq!(map(&mut c, &dot), OverrideMapped::Reevaluate);
}

#[test]
fn commits_count_for_games() {
    let mut c = MoonshineCompositor::new(800, 600);
    c.new_toplevel(1, 11, 5, false);
    c.new_toplevel(2, 12, 0, false);
    c.commit(11, true);
    c.commit(12, false);
    c.commit(99, false);
    assert_eq!(c.targets.damage_sequence_counter, 0);
    assert!(c.targets.screen_dirty);
    c.commit(11, false);
    assert_eq!(c.windows[0].meta.unwrap().damage_sequence, 1);
    assert_eq!(c.targets.damage_sequence_counter, 1);
}

#[test]
fn toplevels_change_their_state() {
    let mut c = MoonshineCompositor::new(800, 600);
    c.new_toplevel(1, 11, 5, false);
    c.fullscreen_request(11, true, Some((1920, 1080)));
    let meta = c.windows[0].meta.unwrap();
    assert!(meta.fullscreen);
    assert_eq!(meta.geometry, Rectangle { x: 0, y: 0, w: 1920, h: 1080 });
    c.unfullscreen_request(11, true, Some((1, 1)));
    assert!(c.windows[0].meta.unwrap().fullscreen);
    c.unfullscreen_request(11, false, None);
    assert!(!c.windows[0].meta.unwrap().fullscreen);
    c.app_id_changed(11, Some(6));
    c.app_id_changed(11, None);
    assert_eq!(c.windows[0].meta.unwrap().app_id, 6);
    c.toplevel_destroyed(99);
    assert_eq!(c.windows.len(), 1);
    c.toplevel_destroyed(11);
    assert!(c.windows.is_empty());
}

#[test]
fn windows_that_go_clear_what_they_held() {
    let mut c = with_games(3);
    c.reevaluate_focus(None);
    assert_eq!(c.targets.focused_x11_window, Some(3));
    let none = Unmapped { clear_dropdowns: false, clear_keyboard: false, reevaluate: false };
    assert_eq!(c.unmapped_window(1), none);
    c.targets.override_window = Some(102);
    assert_eq!(c.unmapped_window(2), Unmapped { clear_dropdowns: true, ..none });
    assert_eq!(c.targets.override_window, None);
    c.destroyed_window(3);
    assert!(c.windows[0].meta.is_none());
    assert_eq!(
        c.unmapped_window(3),
        Unmapped { clear_dropdowns: false, clear_keyboard: true, reevaluate: true }
    );
    assert!(c.windows.is_empty());
}

#[test]
fn properties_change_what_is_known() {
    let mut c = with_games(2);
    let new = WindowMetadata {
        transient_for: Some(1),
        skip_taskbar: true,
        is_dialog: true,
        disabled: true,
        ..Default::default()
    };
    assert!(!c.property_notify(2, WmWindowProperty::Title, &new));
    assert!(c.property_notify(2, WmWindowProperty::TransientFor, &new));
    let meta = c.windows[1].meta.unwrap();
    assert_eq!(meta.transient_for, Some(1));
    assert!(meta.skip_taskbar && !meta.is_dialog && !meta.disabled);
    assert_eq!(c.transient_children.get(&1), Some(&vec![102]));
    assert!(c.property_notify(2, WmWindowProperty::WindowType, &new));
    assert!(c.property_notify(2, WmWindowProperty::Hints, &new));
    let meta = c.windows[1].meta.unwrap();
    assert!(meta.is_dialog && meta.disabled);
    assert!(c.property_notify(2, WmWindowProperty::TransientFor, &WindowMetadata::default()));
    assert!(c.transient_children.get(&1).is_none());
}

#[test]
fn tray_icons_are_docked_and_forgotten() {
    let mut c = with_games(1);
    assert!(!c.client_message_event("_NET_SYSTEM_TRAY_OPCODE", 5, [0, 1, 1, 0, 0]));
    assert!(!c.client_message_event("_NET_WM_STATE", 5, [0, 0, 1, 0, 0]));
    assert!(c.client_message_event("_NET_SYSTEM_TRAY_OPCODE", 5, [0, 0, 1, 0, 0]));
    assert!(c.sys_tray_icons.contains(&1));
    assert!(c.windows[0].meta.unwrap().flags.contains(SYS_TRAY_ICON));
    assert!(c.x11_surface_metadata(&x11(1), None).flags.contains(SYS_TRAY_ICON));
    c.destroyed_window(1);
    assert!(c.sys_tray_icons.is_empty());
}

#[test]
fn steam_windows_are_sorted_by_their_new_width() {
    let mut c = with_games(1);
    let steam = X11Properties { steam_overlay: 1, ..properties(0) };
    c.map_window_request(102, None, &x11(2), Some(steam));
    c.map_window_request(103, None, &x11(3), Some(properties(5)));
    let wide = Rectangle { x: 0, y: 0, w: 1920, h: 1080 };
    c.configure_notify(2, wide, 1);
    assert_eq!(c.windows[2].handle, 102);
    let meta = c.windows[2].meta.unwrap();
    assert_eq!((meta.flags.bits, meta.geometry), (OVERLAY, wide));
    assert!(c.targets.focus_state.dirty);
    c.targets.focus_state.apply();
    c.configure_notify(2, wide, 1);
    assert!(!c.targets.focus_state.dirty);
    c.configure_notify(2, Rectangle { w: 300, ..wide }, 1);
    assert_eq!(c.windows[2].meta.unwrap().flags.bits, NOTIFICATION);
    let asked = configure_request(wide, Some(640), None);
    assert_eq!(asked, Rectangle { w: 640, ..wide });
}

#[test]
fn a_late_surface_gets_the_focus_of_its_window() {
    let mut c = with_games(1);
    c.reevaluate_focus(None);
    assert_eq!(
        c.surface_associated(1, 77, true),
        vec![
            FocusAction::ClearKeyboardFocus,
            FocusAction::KeyboardFocus { window: 101 },
            FocusAction::InputFocus { x11_window: 1 },
            FocusAction::PointerFocus { window: 101, surface: 77 },
        ]
    );
    assert_eq!(c.windows[0].surface, Some(77));
    assert!(c.surface_associated(2, 78, true).is_empty());
    assert_eq!(c.windows[0].surface, Some(77));
}

#[test]
fn a_late_surface_does_not_dismiss_the_dropdown() {
    let mut c = MoonshineCompositor::new(800, 600);
    c.map_window_request(101, None, &x11(1), Some(properties(11)));
    c.reevaluate_focus(None);
    assert_eq!(c.targets.focused_x11_window, Some(1));
    c.targets.override_window = Some(102);
    c.surface_associated(1, 77, true);
    let out = c.reevaluate_focus(None);
    assert_eq!(c.targets.override_window, Some(102));
    assert!(!out.actions.contains(&FocusAction::ClearDropdowns));
    assert_eq!(c.targets.focused_window.unwrap().surface, Some(77));
}
