use moonshine::application::ApplicationConfig;
use moonshine::scanner::common::{copy_commands, fill, is_ascii_alphanumeric, is_listed, join_path, replace_in, sort_texts};
use moonshine::scanner::lutris::{
    default_pga_db, is_valid_slug, scan_lutris_applications, LutrisApplicationScannerConfig, LutrisGame,
};
use moonshine::scanner::steam::{
    find_boxart, game_dir, scan_steam_applications, search_file, FoundFile, SteamApp, SteamApplicationScannerConfig,
};

fn owned(words: &[&str]) -> Vec<String> {
    words.iter().map(|w| w.to_string()).collect()
}

fn steam_config() -> SteamApplicationScannerConfig {
    SteamApplicationScannerConfig {
        library: "~/.local/share/Steam".to_string(),
        command: owned(&["/usr/bin/steam", "steam://rungameid/{game_id}"]),
        pre_command: vec![owned(&["echo", "before"])],
        post_command: vec![owned(&["echo", "after"]), owned(&["sync"])],
        stdout: Some("journal".to_string()),
        stderr: None,
        launch_timeout_secs: 30,
    }
}

fn steam_app(app_id: u32, name: Option<&str>, boxart: Option<&str>) -> SteamApp {
    SteamApp { app_id, name: name.map(|n| n.to_string()), boxart: boxart.map(|b| b.to_string()) }
}

#[test]
fn steam_lists_games_and_leaves_out_tools() {
    let apps = vec![
        steam_app(10, Some("Counter-Strike"), Some("/art.jpg")),
        steam_app(20, None, None),
        steam_app(30, Some("Proton 9.0"), None),
        steam_app(40, Some("Steam Linux Runtime 3.0 (sniper)"), None),
        steam_app(50, Some("Steamworks Common Redistributables"), None),
        steam_app(60, Some("Protopia"), None),
    ];
    let found: Vec<ApplicationConfig> = scan_steam_applications(&steam_config(), &apps);
    assert_eq!(found.len(), 2);
    assert_eq!(found[0].title, "Counter-Strike");
    assert_eq!(found[0].command, vec!["/usr/bin/steam", "steam://rungameid/10"]);
    assert_eq!(found[0].boxart, Some("/art.jpg".to_string()));
    assert_eq!(found[0].pre_command, vec![owned(&["echo", "before"])]);
    assert_eq!(found[0].post_command, vec![owned(&["echo", "after"]), owned(&["sync"])]);
    assert_eq!(found[0].stdout, Some("journal".to_string()));
    assert_eq!(found[0].stderr, None);
    assert_eq!(found[0].launch_timeout_secs, 30);
    assert_eq!(found[1].title, "Protopia");
    assert_eq!(found[1].command[1], "steam://rungameid/60");
    assert_eq!(found[1].boxart, None);
}

#[test]
fn steam_box_art_is_the_portrait_before_the_capsule() {
    let file = |name: &str, path: &str| FoundFile { name: name.to_string(), path: path.to_string() };
    assert_eq!(game_dir(&steam_config(), 730), "~/.local/share/Steam/appcache/librarycache/730");
    let files = vec![
        file("library_capsule.jpg", "/a/library_capsule.jpg"),
        file("library_600x900.jpg", "/b/library_600x900.jpg"),
        file("library_600x900.jpg", "/c/library_600x900.jpg"),
    ];
    assert_eq!(find_boxart(&files), Some("/b/library_600x900.jpg".to_string()));
    assert_eq!(find_boxart(&vec![file("library_capsule.jpg", "/a")]), Some("/a".to_string()));
    assert_eq!(find_boxart(&vec![file("logo.png", "/l")]), None);
    assert_eq!(search_file(&files, "library_capsule.jpg"), Some("/a/library_capsule.jpg".to_string()));
    assert_eq!(search_file(&files, "none"), None);
}

fn lutris_config() -> LutrisApplicationScannerConfig {
    LutrisApplicationScannerConfig {
        pga_db: "/pga.db".to_string(),
        command: owned(&["lutris", "lutris:rungame/{slug}"]),
        pre_command: vec![],
        post_command: vec![],
        stdout: None,
        stderr: Some("null".to_string()),
        launch_timeout_secs: 2,
    }
}

#[test]
fn lutris_lists_games_with_a_valid_short_name() {
    let game = |name: &str, slug: &str| LutrisGame { name: name.to_string(), slug: slug.to_string() };
    let games = vec![game("Doom", "doom-1.0"), game("Bad", "../doom"), game("Quake", "quake"), game("Hexen", "hexen")];
    let coverart = owned(&["quake.png", "doom-1.0.png", "doom-1.0.jpg"]);
    let found = scan_lutris_applications(&lutris_config(), &games, "/art", &coverart);
    assert_eq!(found.len(), 3);
    assert_eq!(found[0].title, "Doom");
    assert_eq!(found[0].command, vec!["lutris", "lutris:rungame/doom-1.0"]);
    assert_eq!(found[0].boxart, Some("/art/doom-1.0.jpg".to_string()));
    assert_eq!(found[1].title, "Quake");
    assert_eq!(found[1].boxart, Some("/art/quake.png".to_string()));
    assert_eq!(found[2].boxart, None);
    assert_eq!(found[2].stderr, Some("null".to_string()));
}

#[test]
fn lutris_short_names_and_paths() {
    assert!(is_valid_slug("the-witcher_3.goty"));
    assert!(is_valid_slug(""));
    assert!(!is_valid_slug("a b"));
    assert!(!is_valid_slug("a/b"));
    assert_eq!(default_pga_db(Some("/home/p/.local/share")), "/home/p/.local/share/lutris/pga.db");
    assert_eq!(default_pga_db(None), "./lutris/pga.db");
}

#[test]
fn paths_are_joined_with_one_slash() {
    assert_eq!(join_path("/a", "b"), "/a/b");
    assert_eq!(join_path("/a/", "b"), "/a/b");
    assert_eq!(join_path("", "b"), "b");
    assert_eq!(join_path("/a", "/b"), "/b");
}

#[test]
fn placeholders_are_filled_in_everywhere() {
    assert_eq!(replace_in("{x}-{x}", "{x}", "1"), "1-1");
    assert_eq!(replace_in("aaa", "aa", "b"), "ba");
    assert_eq!(fill(&owned(&["a{x}", "b"]), "{x}", "{x}"), owned(&["a{x}", "b"]));
    assert_eq!(copy_commands(&vec![owned(&["a"]), vec![]]), vec![owned(&["a"]), vec![]]);
}

#[test]
fn texts_are_sorted_by_their_characters() {
    assert_eq!(
        sort_texts(&owned(&["b", "ab", "a", "", "B", "ab"])),
        owned(&["", "B", "a", "ab", "ab", "b"])
    );
    assert!(is_listed(&owned(&["a", "b"]), "b"));
    assert!(!is_listed(&owned(&["a", "b"]), "c"));
    assert!(is_ascii_alphanumeric('Z') && !is_ascii_alphanumeric('-'));
}
