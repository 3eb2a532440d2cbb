use moonshine::steam_app_id::{
    cache_get, cache_set, get_appid_from_pid, parse_starttime, parse_stat, walk_cmdline, walk_stat,
    AppIdCache, AppIdWalk,
};

const SECOND: u64 = 1_000_000_000;

fn stat(pid: u32, name: &str, parent: u32, start: u64) -> String {
    format!("{pid} ({name}) S {parent} 1 1 0 -1 4194560 1 2 3 4 5 6 7 8 20 0 1 0 {start} 1000 1")
}

#[test]
fn status_lines_hold_name_parent_and_start() {
    let line = stat(42, "wine (64) x", 7, 9000);
    let fields = parse_stat(&line).unwrap();
    assert_eq!(fields.name, "wine (64) x");
    assert_eq!(fields.parent_pid, 7);
    assert_eq!(parse_starttime(&line), Some(9000));
    assert!(parse_stat("42 no brackets").is_none());
    assert!(parse_stat("42 (x) S").is_none());
    assert!(parse_stat("42 (x) S -7 1").is_none());
    assert_eq!(parse_starttime("42 (x) S 7"), None);
}

#[test]
fn the_cache_forgets_and_tells_reused_ids_apart() {
    let mut cache = AppIdCache::new();
    cache_set(&mut cache, 42, Some(1), 730, 10 * SECOND);
    cache_set(&mut cache, 43, None, 731, 10 * SECOND);
    assert_eq!(cache_get(&mut cache, 42, Some(1), 10 * SECOND), Some(730));
    assert_eq!(cache_get(&mut cache, 42, Some(2), 10 * SECOND), None);
    assert_eq!(cache_get(&mut cache, 42, None, 10 * SECOND), None);
    assert_eq!(cache_get(&mut cache, 43, None, 10 * SECOND), None);
    assert_eq!(cache_get(&mut cache, 42, Some(1), 15 * SECOND - 1), Some(730));
    assert_eq!(cache_get(&mut cache, 42, Some(1), 15 * SECOND), None);
    assert_eq!(cache_get(&mut cache, 42, Some(1), 10 * SECOND), None);
    cache_set(&mut cache, 42, Some(1), 0, 20 * SECOND);
    cache_set(&mut cache, 42, Some(1), 5, 20 * SECOND);
    assert_eq!(cache_get(&mut cache, 42, Some(1), 20 * SECOND), Some(5));
}

#[test]
fn the_walk_goes_up_to_the_launcher() {
    let mut cache = AppIdCache::new();
    assert_eq!(get_appid_from_pid(42), AppIdWalk::ReadStat { pid: 42 });
    let line = stat(42, "game", 7, 1);
    let step = walk_stat(42, Some(&line), &mut cache, 0);
    assert_eq!(step, AppIdWalk::ReadCmdline { pid: 42, parent_pid: 7, reaper: false });
    let step = walk_cmdline(42, 7, false, Some(b"game.exe\0"), Some(1), &mut cache, 0);
    assert_eq!(step, AppIdWalk::ReadStat { pid: 7 });
    let line = stat(7, "reaper", 1, 2);
    let step = walk_stat(7, Some(&line), &mut cache, 0);
    assert_eq!(step, AppIdWalk::ReadCmdline { pid: 7, parent_pid: 1, reaper: true });
    let step = walk_cmdline(7, 1, true, Some(b"reaper\0SteamLaunch\0AppId=730\0"), Some(2), &mut cache, 0);
    assert_eq!(step, AppIdWalk::Done { app_id: 730 });

    let line = stat(42, "game", 7, 1);
    assert_eq!(walk_stat(42, Some(&line), &mut cache, SECOND), AppIdWalk::ReadStat { pid: 7 });
    let line = stat(7, "reaper", 1, 2);
    assert_eq!(walk_stat(7, Some(&line), &mut cache, SECOND), AppIdWalk::Done { app_id: 730 });
}

#[test]
fn the_walk_ends_without_an_app_id() {
    let mut cache = AppIdCache::new();
    let done = AppIdWalk::Done { app_id: 0 };
    assert_eq!(walk_stat(42, None, &mut cache, 0), done);
    assert_eq!(walk_stat(42, Some("42 x"), &mut cache, 0), done);
    assert_eq!(walk_stat(42, Some("42 x)"), &mut cache, 0), done);
    assert_eq!(walk_stat(42, Some("42 (x)"), &mut cache, 0), done);
    assert_eq!(walk_stat(42, Some("42 (x)\u{3000}S"), &mut cache, 0), done);
    assert_eq!(walk_stat(42, Some(&stat(42, "x", 0, 1)), &mut cache, 0), done);
    assert_eq!(walk_stat(1, Some(&stat(1, "init", 5, 1)), &mut cache, 0), done);
    assert_eq!(walk_cmdline(7, 1, true, Some(b"reaper\0"), None, &mut cache, 0), done);
    assert_eq!(walk_cmdline(7, 1, true, None, Some(2), &mut cache, 0), done);
    assert_eq!(walk_stat(7, Some(&stat(7, "reaper", 1, 2)), &mut cache, 0), done);
}

/// Walks up from `pid` among processes given by id, name, parent and command
/// line: the app id found and the processes whose status line was read.
fn walk(processes: &[(u32, &str, u32, &[u8])], pid: u32, cache: &mut AppIdCache) -> (u32, Vec<u32>) {
    let mut read = vec![];
    let mut walk = get_appid_from_pid(pid);
    loop {
        walk = match walk {
            AppIdWalk::ReadStat { pid } => {
                read.push(pid);
                let line = processes.iter().find(|p| p.0 == pid).map(|p| stat(p.0, p.1, p.2, 9));
                walk_stat(pid, line.as_deref(), cache, 0)
            }
            AppIdWalk::ReadCmdline { pid, parent_pid, reaper } => {
                let cmdline = processes.iter().find(|p| p.0 == pid).map(|p| p.3);
                walk_cmdline(pid, parent_pid, reaper, cmdline, Some(9), cache, 0)
            }
            AppIdWalk::Done { app_id } => return (app_id, read),
        };
    }
}

#[test]
fn a_walk_finds_the_first_app_id_of_the_processes_it_examines() {
    let processes: [(u32, &str, u32, &[u8]); 6] = [
        (50, "game", 40, b"game.exe\0"),
        (40, "wine", 30, b"wine\0"),
        (30, "sh", 20, b"sh\0SteamLaunch\0AppId=730\0"),
        (20, "reaper", 10, b"reaper\0SteamLaunch\0AppId=440\0"),
        (11, "reaper", 1, b"reaper\0"),
        (1, "init", 0, b"init\0SteamLaunch\0AppId=5\0"),
    ];
    let mut cache = AppIdCache::new();
    assert_eq!(walk(&processes, 50, &mut cache), (730, vec![50, 40, 30]));
    assert_eq!(walk(&processes, 50, &mut cache), (730, vec![50, 40, 30]));
    assert_eq!(walk(&processes, 20, &mut cache), (440, vec![20]));
    assert_eq!(walk(&processes, 11, &mut cache), (0, vec![11]));
    assert_eq!(walk(&processes, 1, &mut cache), (0, vec![1]));
    assert_eq!(walk(&processes, 7, &mut cache), (0, vec![7]));

    let mut cache = AppIdCache::new();
    cache_set(&mut cache, 40, Some(9), 620, 0);
    assert_eq!(walk(&processes, 50, &mut cache), (620, vec![50, 40]));
}
