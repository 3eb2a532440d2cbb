use moonshine::compositor::focus::{
    get_window_priority_key, is_good_override_candidate, is_same_app_override_decoration,
    ranks_below, virtual_connector_key, win_treat_as_per_window, windows_share_app, FocusState,
    Rectangle, VirtualConnectorStrategy, WindowFlags, WindowMetadata, NOTIFICATION, OVERLAY,
    SKIP_FOCUS, SYS_TRAY_ICON,
};

fn make_meta(fields: &[(&str, &str)]) -> WindowMetadata {
    let mut m = WindowMetadata::default();
    for &(key, val) in fields {
        match key {
            "app_id" => m.app_id = val.parse().unwrap(),
            "steam_app_id" => m.steam_app_id = val.parse().unwrap(),
            "steam_legacy_big_picture" => m.steam_legacy_big_picture = val.parse().unwrap(),
            "override_redirect" => m.override_redirect = val.parse().unwrap(),
            "maybe_a_dropdown" => m.maybe_a_dropdown = val.parse().unwrap(),
            "disabled" => {
                m.has_hwnd_style = true;
                m.hwnd_style = if val.parse().unwrap() { 0x8000_0000 } else { 0 };
            },
            "is_dialog" => m.is_dialog = val.parse().unwrap(),
            "is_x11" => m.is_x11 = val.parse().unwrap(),
            "skip_taskbar" => m.skip_taskbar = val.parse().unwrap(),
            "skip_pager" => m.skip_pager = val.parse().unwrap(),
            "fullscreen" => m.fullscreen = val.parse().unwrap(),
            "map_sequence" => m.map_sequence = val.parse().unwrap(),
            "damage_sequence" => m.damage_sequence = val.parse().unwrap(),
            "width" => m.geometry.w = val.parse().unwrap(),
            "height" => m.geometry.h = val.parse().unwrap(),
            _ => panic!("unknown field: {}", key),
        }
    }
    m
}

#[test]
fn test_steam_big_picture_is_held_at_output_size_without_the_fullscreen_state() {
    assert!(make_meta(&[("app_id", "769")]).should_fill_output());
}

#[test]
fn test_a_windowed_game_keeps_its_own_size_until_fullscreen() {
    assert!(!make_meta(&[("app_id", "12345")]).should_fill_output());
    assert!(make_meta(&[("app_id", "12345"), ("fullscreen", "true")]).should_fill_output());
}

#[test]
fn test_dialog_and_dropdown_are_not_held_at_output_size() {
    assert!(
        !make_meta(&[
            ("app_id", "12345"),
            ("override_redirect", "true"),
            ("width", "100"),
            ("height", "100"),
        ])
        .should_fill_output()
    );
    let mut m = make_meta(&[("app_id", "12345")]);
    m.transient_for = Some(12345);
    assert!(!m.should_fill_output());
}

// ---- Priority key tests (T2) ----

#[test]
fn test_game_wins_over_non_game() {
    let game = make_meta(&[("app_id", "12345")]);
    let non_game = make_meta(&[("app_id", "0")]);
    assert!(get_window_priority_key(&game) > get_window_priority_key(&non_game));
}

#[test]
fn test_non_override_wins_over_override() {
    let normal = make_meta(&[("override_redirect", "false")]);
    let override_w = make_meta(&[("override_redirect", "true")]);
    assert!(get_window_priority_key(&normal) > get_window_priority_key(&override_w));
}

#[test]
fn test_non_useless_wins_over_useless() {
    let normal = make_meta(&[("width", "100"), ("height", "100")]);
    let useless = make_meta(&[("width", "1"), ("height", "1")]);
    assert!(get_window_priority_key(&normal) > get_window_priority_key(&useless));
}

#[test]
fn test_non_dropdown_wins_over_dropdown() {
    let normal = make_meta(&[("maybe_a_dropdown", "false")]);
    let dropdown = make_meta(&[
        ("maybe_a_dropdown", "true"),
        ("override_redirect", "true"),
        ("width", "100"),
        ("height", "100"),
    ]);
    assert!(get_window_priority_key(&normal) > get_window_priority_key(&dropdown));
}

#[test]
fn test_non_disabled_wins_over_disabled() {
    let normal = make_meta(&[("disabled", "false")]);
    let disabled = make_meta(&[("disabled", "true")]);
    assert!(get_window_priority_key(&normal) > get_window_priority_key(&disabled));
}

#[test]
fn test_non_skip_wins_over_skip() {
    let normal = make_meta(&[("skip_taskbar", "false"), ("skip_pager", "false")]);
    let skip = make_meta(&[
        ("skip_taskbar", "true"),
        ("skip_pager", "true"),
        ("fullscreen", "false"),
    ]);
    assert!(get_window_priority_key(&normal) > get_window_priority_key(&skip));
}

#[test]
fn test_identical_windows_equal() {
    let a = make_meta(&[("app_id", "123"), ("map_sequence", "5")]);
    let b = make_meta(&[("app_id", "123"), ("map_sequence", "5")]);
    assert_eq!(get_window_priority_key(&a), get_window_priority_key(&b));
}

#[test]
fn test_transitivity() {
    // Build three windows where all have different priority levels.
    // A > B, B > C implies A > C.
    let a = make_meta(&[
        ("app_id", "12345"),
        ("override_redirect", "false"),
        ("disabled", "false"),
        ("width", "100"),
        ("height", "100"),
    ]);
    let b = make_meta(&[
        ("app_id", "0"),
        ("override_redirect", "false"),
        ("disabled", "false"),
        ("width", "100"),
        ("height", "100"),
    ]);
    let c = make_meta(&[
        ("app_id", "0"),
        ("override_redirect", "true"),
        ("disabled", "false"),
        ("width", "100"),
        ("height", "100"),
    ]);
    let ka = get_window_priority_key(&a);
    let kb = get_window_priority_key(&b);
    let kc = get_window_priority_key(&c);
    assert!(ka > kb, "A > B");
    assert!(kb > kc, "B > C");
    assert!(ka > kc, "A > C (transitivity)");
}

#[test]
fn test_transitivity_chain_of_10() {
    // Generate 10 windows with monotonically decreasing priority and
    // verify all pairwise comparisons are transitive.
    let windows: Vec<WindowMetadata> = (0..10)
        .map(|i| WindowMetadata {
            map_sequence: 10 - i,
            app_id: 12345,
            ..Default::default()
        })
        .collect();
    let keys: Vec<_> = windows.iter().map(get_window_priority_key).collect();

    // Verify strict total ordering: for all i < j, keys[i] >= keys[j]
    for i in 0..keys.len() {
        for j in (i + 1)..keys.len() {
            assert!(
                keys[i] >= keys[j],
                "keys[{}] {:?} should be >= keys[{}] {:?}",
                i,
                keys[i],
                j,
                keys[j]
            );
        }
    }
    // Verify transitivity: for all i < j < k, keys[i] >= keys[k]
    for i in 0..keys.len() {
        for j in (i + 1)..keys.len() {
            for k in (j + 1)..keys.len() {
                if keys[i] >= keys[j] && keys[j] >= keys[k] {
                    assert!(keys[i] >= keys[k], "transitivity violated: i={} j={} k={}", i, j, k);
                }
            }
        }
    }
}

#[test]
fn test_antisymmetry() {
    // For any two windows: if key(a) > key(b), then key(b) < key(a).
    let a = make_meta(&[("app_id", "12345")]);
    let b = make_meta(&[("app_id", "0")]);
    let ka = get_window_priority_key(&a);
    let kb = get_window_priority_key(&b);
    if ka > kb {
        assert!(kb < ka);
    }
    if kb > ka {
        assert!(ka < kb);
    }
    if ka == kb {
        assert!(kb == ka);
    }
}

#[test]
fn test_map_sequence_tiebreaker_for_games() {
    let newer = make_meta(&[("app_id", "12345"), ("map_sequence", "10")]);
    let older = make_meta(&[("app_id", "12345"), ("map_sequence", "5")]);
    assert!(get_window_priority_key(&newer) > get_window_priority_key(&older));
}

#[test]
fn test_damage_sequence_tiebreaker_for_games() {
    let recent = make_meta(&[("app_id", "12345"), ("damage_sequence", "100")]);
    let stale = make_meta(&[("app_id", "12345"), ("damage_sequence", "50")]);
    assert!(get_window_priority_key(&recent) > get_window_priority_key(&stale));
}

#[test]
fn test_xdg_wins_over_x11() {
    let xdg = make_meta(&[("is_x11", "false")]);
    let x11 = make_meta(&[("is_x11", "true")]);
    assert!(get_window_priority_key(&xdg) > get_window_priority_key(&x11));
}

#[test]
fn test_non_dialog_wins_over_dialog_among_dropdowns() {
    // Both are dropdowns (via override_redirect + non-1x1).
    let non_dialog = make_meta(&[
        ("override_redirect", "true"),
        ("is_dialog", "false"),
        ("width", "100"),
        ("height", "100"),
    ]);
    let dialog = make_meta(&[
        ("override_redirect", "true"),
        ("is_dialog", "true"),
        ("width", "100"),
        ("height", "100"),
    ]);
    assert!(get_window_priority_key(&non_dialog) > get_window_priority_key(&dialog));
}

#[test]
fn test_windows_share_app_by_steam_game_id() {
    let a = make_meta(&[("app_id", "0"), ("steam_app_id", "12345")]);
    let b = make_meta(&[("app_id", "0"), ("steam_app_id", "12345")]);
    let c = make_meta(&[("app_id", "0"), ("steam_app_id", "999")]);
    assert!(windows_share_app(&a, &b));
    assert!(!windows_share_app(&a, &c));
}

#[test]
fn test_legacy_big_picture_is_steam() {
    assert!(make_meta(&[("app_id", "0"), ("steam_legacy_big_picture", "true")]).is_steam());
    assert!(make_meta(&[("app_id", "769")]).is_steam());
    assert!(!make_meta(&[("app_id", "12345")]).is_steam());
}

#[test]
fn test_one_by_one_override_is_not_override_redirect() {
    let one_by_one = make_meta(&[("override_redirect", "true"), ("width", "1"), ("height", "1")]);
    assert!(!one_by_one.is_override_redirect());
    let normal = make_meta(&[("override_redirect", "true"), ("width", "100"), ("height", "100")]);
    assert!(normal.is_override_redirect());
}

#[test]
fn test_disabled_requires_the_wine_style_property() {
    // `hwnd_style` set without `has_hwnd_style` must not count as disabled.
    let m = WindowMetadata {
        hwnd_style: 0x8000_0000,
        ..Default::default()
    };
    assert!(!m.is_disabled());
}

#[test]
fn test_per_window_strategy_treats_every_window_as_its_own_connector() {
    let m = make_meta(&[("app_id", "12345"), ("map_sequence", "7")]);
    assert!(win_treat_as_per_window(&m, VirtualConnectorStrategy::PerWindow));
    assert!(!win_treat_as_per_window(&m, VirtualConnectorStrategy::SteamControlled));
    assert!(!win_treat_as_per_window(
        &m,
        VirtualConnectorStrategy::SingleApplication
    ));
    assert_eq!(virtual_connector_key(&m, VirtualConnectorStrategy::PerWindow), 7);
    assert_eq!(virtual_connector_key(&m, VirtualConnectorStrategy::SteamControlled), 0);
    assert_eq!(virtual_connector_key(&m, VirtualConnectorStrategy::PerAppId), 12345);
}

#[test]
fn ranking_agrees_with_the_order_of_the_keys() {
    let metas = [
        make_meta(&[("app_id", "12345")]),
        make_meta(&[("app_id", "12345"), ("map_sequence", "9")]),
        make_meta(&[("override_redirect", "true"), ("width", "5"), ("height", "5")]),
        make_meta(&[("is_x11", "true")]),
        make_meta(&[("is_dialog", "true")]),
        make_meta(&[("damage_sequence", "3")]),
        make_meta(&[("width", "1"), ("height", "1")]),
    ];
    for a in &metas {
        for b in &metas {
            let (ka, kb) = (get_window_priority_key(a), get_window_priority_key(b));
            assert_eq!(ranks_below(ka, kb), ka < kb);
        }
    }
}

#[test]
fn windows_without_an_app_have_keys_of_their_own() {
    let steam = WindowMetadata { steam_legacy_big_picture: true, ..Default::default() };
    let lone = WindowMetadata { map_sequence: 7, ..Default::default() };
    let game = make_meta(&[("app_id", "12345")]);
    let keys = [&steam, &lone, &game].map(|m| virtual_connector_key(m, VirtualConnectorStrategy::PerAppId));
    assert_eq!(keys[1], 0x8000_0000_0000_0007);
    assert_eq!(keys[2], 12345);
    assert!(keys[0] != keys[1] && keys[0] != keys[2]);
    assert!(win_treat_as_per_window(&lone, VirtualConnectorStrategy::PerAppId));
    assert!(!win_treat_as_per_window(&game, VirtualConnectorStrategy::PerAppId));
    assert_eq!(virtual_connector_key(&game, VirtualConnectorStrategy::SingleApplication), 0);
}

#[test]
fn steam_window_ids_tell_wayland_windows_apart() {
    let x11 = WindowMetadata { x11_window_id: Some(77), map_sequence: 3, ..Default::default() };
    assert_eq!(x11.steam_window_id(), 77);
    let wayland = WindowMetadata { map_sequence: 0x1_0000_0003, ..Default::default() };
    assert_eq!(wayland.steam_window_id(), 0x8000_0003);
}

#[test]
fn dropdowns_are_known_by_style_hints_and_app() {
    let styled = WindowMetadata {
        has_hwnd_style_ex: true,
        hwnd_style_ex: 0x0009_0000,
        ..Default::default()
    };
    assert!(styled.is_dropdown());
    assert!(!WindowMetadata { hwnd_style_ex: 0x000d_0000, ..styled }.is_dropdown());
    assert!(!WindowMetadata { has_hwnd_style_ex: false, ..styled }.is_dropdown());
    assert!(!WindowMetadata { app_id: 219890, ..styled }.is_dropdown());

    let hidden = WindowMetadata { maybe_a_dropdown: true, skip_taskbar: true, ..Default::default() };
    assert!(hidden.is_dropdown());
    assert!(!WindowMetadata { skip_taskbar: false, ..hidden }.is_dropdown());
    assert!(!WindowMetadata { is_dialog: true, ..hidden }.is_dropdown());
    assert!(WindowMetadata { is_dialog: true, skip_pager: true, ..hidden }.is_dropdown());
    assert!(!WindowMetadata { app_id: 1293830, ..hidden }.is_dropdown());
    assert!(WindowMetadata { app_id: 1293830, requested_width: 5, ..hidden }.is_dropdown());
    let warframe = WindowMetadata {
        app_id: 230410,
        is_dialog: true,
        transient_for: Some(4),
        ..hidden
    };
    assert!(warframe.is_dropdown());
    assert!(!WindowMetadata { app_id: 230411, ..warframe }.is_dropdown());
}

#[test]
fn overlays_and_transient_windows_do_not_fill_the_output() {
    let game = WindowMetadata { app_id: 5, fullscreen: true, ..Default::default() };
    assert!(game.should_fill_output());
    assert!(!WindowMetadata { flags: WindowFlags::empty().with(OVERLAY), ..game }.should_fill_output());
    assert!(!WindowMetadata { app_id: 0, ..game }.should_fill_output());
    assert!(!WindowMetadata { transient_for: Some(3), ..game }.should_fill_output());
}

#[test]
fn flags_are_sets_of_bits() {
    let both = WindowFlags::empty().with(OVERLAY).with(SYS_TRAY_ICON);
    assert!(both.contains(OVERLAY | SYS_TRAY_ICON));
    assert!(!both.contains(OVERLAY | NOTIFICATION));
    assert!(both.intersects(OVERLAY | NOTIFICATION));
    assert!(!both.without(OVERLAY).intersects(OVERLAY | NOTIFICATION));
    assert!(both.intersects(SKIP_FOCUS));
    assert!(!WindowFlags::empty().intersects(SKIP_FOCUS));
    let tray = WindowMetadata { flags: both, override_redirect: true, ..Default::default() };
    assert!(tray.is_useless() && !tray.is_override_redirect());
}

#[test]
fn override_candidates_belong_to_the_focus_and_can_be_seen() {
    let focus = WindowMetadata { app_id: 5, pid: 10, x11_window_id: Some(1), ..Default::default() };
    let menu = WindowMetadata {
        pid: 10,
        x11_window_id: Some(2),
        geometry: Rectangle { x: -10, y: -10, w: 30, h: 30 },
        ..Default::default()
    };
    assert!(is_good_override_candidate(&menu, &focus));
    assert!(!is_good_override_candidate(&WindowMetadata { pid: 11, ..menu }, &focus));
    assert!(is_good_override_candidate(&WindowMetadata { pid: 11, app_id: 5, ..menu }, &focus));
    assert!(!is_good_override_candidate(&WindowMetadata { x11_window_id: Some(1), ..menu }, &focus));
    let left = Rectangle { x: -30, y: 0, w: 30, h: 30 };
    assert!(!is_good_override_candidate(&WindowMetadata { geometry: left, ..menu }, &focus));
    let above = Rectangle { x: 0, y: i32::MIN, w: 30, h: 30 };
    assert!(!is_good_override_candidate(&WindowMetadata { geometry: above, ..menu }, &focus));
}

#[test]
fn decorations_are_no_override_candidates() {
    let focus = WindowMetadata { app_id: 5, pid: 10, x11_window_id: Some(1), ..Default::default() };
    let frame = WindowMetadata {
        app_id: 5,
        pid: 11,
        x11_window_id: Some(2),
        override_redirect: true,
        has_hwnd_style_ex: true,
        hwnd_style_ex: 0x0008_0020,
        geometry: Rectangle { x: 0, y: 0, w: 30, h: 30 },
        ..Default::default()
    };
    assert!(is_same_app_override_decoration(&frame, &focus));
    assert!(!is_good_override_candidate(&frame, &focus));
    let same_process = WindowMetadata { pid: 10, ..frame };
    assert!(!is_same_app_override_decoration(&same_process, &focus));
    assert!(is_good_override_candidate(&same_process, &focus));
    assert!(!is_same_app_override_decoration(&WindowMetadata { hwnd_style_ex: 0x20, ..frame }, &focus));
}

#[test]
fn requests_stay_until_they_are_cleared() {
    let mut state = FocusState::default();
    state.set_requested_focus(3);
    state.set_requested_focus_surface(9);
    assert!(state.dirty);
    state.apply();
    assert!(!state.dirty);
    assert_eq!(state.peek_requested_focus(), Some(3));
    assert_eq!(state.peek_requested_focus_surface(), Some(9));
    state.clear_requested_focus();
    assert_eq!(state.peek_requested_focus(), None);
    assert_eq!(state.peek_requested_focus_surface(), Some(9));
    state.clear_requested_focus_surface();
    assert_eq!(state, FocusState::default());
    state.mark_dirty();
    assert!(state.dirty);
}
