use moonshine::compositor::x11_focus::{
    display_id_to_server_id, read_cardinal, read_cardinal_array, CachedAtoms, PropertyChange,
    PropertyReply, X11Focus, MAX_APP_IDS,
};

fn reply(items: &[i64]) -> PropertyReply {
    PropertyReply { status: 0, format: 32, items: Some(items.to_vec()) }
}

fn unset() -> PropertyReply {
    PropertyReply { status: 0, format: 0, items: None }
}

fn connection() -> X11Focus {
    X11Focus {
        root: 100,
        atoms: CachedAtoms {
            net_wm_state_skip_taskbar: 1,
            net_wm_state_skip_pager: 2,
            gamescope_focused_app: 3,
            gamescope_focusable_apps: 4,
            gamescope_focusable_windows: 5,
        },
    }
}

fn without_atoms() -> X11Focus {
    X11Focus {
        root: 100,
        atoms: CachedAtoms {
            net_wm_state_skip_taskbar: 0,
            net_wm_state_skip_pager: 0,
            gamescope_focused_app: 0,
            gamescope_focusable_apps: 0,
            gamescope_focusable_windows: 0,
        },
    }
}

#[test]
fn cardinals_are_the_low_half_of_their_items() {
    assert_eq!(read_cardinal(&reply(&[0x1_0000_0007, 9]), 5), 7);
    assert_eq!(read_cardinal(&reply(&[-1]), 5), u32::MAX);
    assert_eq!(read_cardinal(&reply(&[]), 5), 5);
    assert_eq!(read_cardinal(&unset(), 5), 5);
    assert_eq!(read_cardinal(&PropertyReply { status: 1, ..reply(&[7]) }, 5), 5);
    assert_eq!(read_cardinal(&PropertyReply { format: 8, ..reply(&[7]) }, 5), 5);
    assert_eq!(read_cardinal_array(&reply(&[1, 2, 3]), 2), vec![1, 2]);
    assert!(read_cardinal_array(&PropertyReply { format: 16, ..reply(&[7]) }, 2).is_empty());
}

#[test]
fn properties_have_their_defaults() {
    assert_eq!(X11Focus::get_window_pid(&reply(&[42]), 7), 42);
    assert_eq!(X11Focus::get_window_pid(&unset(), 7), 7);
    assert_eq!(X11Focus::get_input_focus_mode(&unset()), 0);
    assert_eq!(X11Focus::get_steam_overlay_value(&reply(&[1])), 1);
    assert_eq!(X11Focus::get_window_opacity(&unset()), 255);
    assert_eq!(X11Focus::get_window_opacity(&reply(&[0])), 0);
    assert_eq!(X11Focus::get_window_opacity(&reply(&[0x8000_0000])), 127);
    assert!(X11Focus::is_steam_streaming_client(&reply(&[1])));
    assert!(!X11Focus::is_steam_streaming_client_video(&reply(&[0])));
    assert!(!X11Focus::is_gamescope_external_overlay(&unset()));
    assert!(X11Focus::is_steam_big_picture(&reply(&[2])));
    assert_eq!(X11Focus::get_window_style(&reply(&[0x8000_0000])), 0x8000_0000);
    assert_eq!(X11Focus::get_vr_overlay_target(&reply(&[5, 1])), 0x1_0000_0005);
    assert_eq!(X11Focus::get_vr_overlay_target(&reply(&[5])), 0);
}

#[test]
fn steam_asks_for_a_window_and_apps() {
    let control = X11Focus::read_focus_control(&reply(&[9]), &reply(&[10, 20]));
    assert_eq!(control.window, Some(9));
    assert_eq!(control.app_ids, vec![10, 20]);
    let control = X11Focus::read_focus_control(&reply(&[0]), &reply(&vec![1; 2000]));
    assert_eq!(control.window, None);
    assert_eq!(control.app_ids.len(), MAX_APP_IDS);
}

#[test]
fn steam_is_told_what_can_be_focused() {
    let written = |change: Option<PropertyChange>| match change {
        Some(PropertyChange::Write { window: 100, atom, values }) => (atom, values),
        _ => panic!("not written"),
    };
    let deleted = |change: Option<PropertyChange>| match change {
        Some(PropertyChange::Delete { window: 100, atom }) => atom,
        _ => panic!("not deleted"),
    };
    let x = connection();
    assert_eq!(written(x.set_focused_app(730)), (3, vec![730]));
    assert_eq!(written(x.set_focusable_apps(&[1, 2])), (4, vec![1, 2]));
    assert_eq!(written(x.set_focusable_windows(&[(1, 2, 3), (4, 5, 6)])), (5, vec![1, 2, 3, 4, 5, 6]));
    assert_eq!(deleted(x.clear_focused_app()), 3);
    assert_eq!(deleted(x.clear_focusable_apps()), 4);
    assert_eq!(deleted(x.clear_focusable_windows()), 5);
    assert!(x.set_focusable_apps(&[]).is_none() && x.set_focusable_windows(&[]).is_none());
    let x = without_atoms();
    assert!(x.set_focused_app(1).is_none() && x.clear_focused_app().is_none());
    assert!(x.set_focusable_apps(&[1]).is_none() && x.clear_focusable_apps().is_none());
    assert!(x.set_focusable_windows(&[(1, 2, 3)]).is_none() && x.clear_focusable_windows().is_none());
}

#[test]
fn window_states_hold_atoms() {
    assert_eq!(X11Focus::get_net_wm_state(&reply(&[7, 2])), Some(vec![7, 2]));
    assert_eq!(X11Focus::get_net_wm_state(&reply(&[])), None);
    assert_eq!(connection().get_net_wm_state_skip_flags(&reply(&[7, 2])), (false, true));
    assert_eq!(connection().get_net_wm_state_skip_flags(&reply(&[2, 1])), (true, true));
    assert_eq!(connection().get_net_wm_state_skip_flags(&unset()), (false, false));
    assert_eq!(without_atoms().get_net_wm_state_skip_flags(&reply(&[0])), (false, false));
}

#[test]
fn server_ids_hold_the_display() {
    assert_eq!(display_id_to_server_id(0), 100 << 8);
    assert_eq!(display_id_to_server_id(7), (107 << 8) | 7);
}
