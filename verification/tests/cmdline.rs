use moonshine::steam_app_id::scan_cmdline_for_app_id;

#[test]
fn test_steam_launch_app_id() {
    assert_eq!(scan_cmdline_for_app_id(b"SteamLaunch\0AppId=12345"), 12345);
}

#[test]
fn test_appids_flag() {
    assert_eq!(scan_cmdline_for_app_id(b"--appids=67890"), 67890);
}

#[test]
fn test_appids_multiple_returns_first_nonzero() {
    assert_eq!(scan_cmdline_for_app_id(b"--appids=12345,67890"), 12345);
}

#[test]
fn test_appids_after_double_dash() {
    // --appids= after -- should be detected
    assert_eq!(scan_cmdline_for_app_id(b"steamwebhelper\0--\0--appids=11111"), 11111);
}

#[test]
fn test_steam_launch_no_app_id() {
    assert_eq!(scan_cmdline_for_app_id(b"SteamLaunch"), 0);
}

#[test]
fn test_empty_cmdline() {
    assert_eq!(scan_cmdline_for_app_id(b""), 0);
}

#[test]
fn test_app_id_zero_skipped() {
    assert_eq!(scan_cmdline_for_app_id(b"AppId=0"), 0);
}

#[test]
fn test_steam_launch_with_app_id_zero_skipped() {
    // SteamLaunch followed by AppId=0 should return 0
    assert_eq!(scan_cmdline_for_app_id(b"SteamLaunch\0AppId=0"), 0);
}

#[test]
fn test_appids_with_zero_and_nonzero() {
    // --appids=0,12345 should return 12345 (first non-zero)
    assert_eq!(scan_cmdline_for_app_id(b"--appids=0,12345"), 12345);
}

#[test]
fn test_realistic_steam_cmdline() {
    let cmdline = b"/usr/bin/steamwebhelper\0--no-sandbox\0--appids=1091500";
    assert_eq!(scan_cmdline_for_app_id(cmdline), 1091500);
}

#[test]
fn test_realistic_proton_cmdline() {
    let cmdline = b"/usr/bin/steam\0SteamLaunch\0--\0AppId=1172470\0--\0start";
    assert_eq!(scan_cmdline_for_app_id(cmdline), 1172470);
}

#[test]
fn test_non_utf8_cmdline() {
    // Non-UTF8 bytes should not cause a panic — the scanner works on raw bytes.
    let cmdline = b"someproc\0\xff\xfe\0AppId=42424";
    assert_eq!(scan_cmdline_for_app_id(cmdline), 42424);
}
