use moonshine::application::ApplicationConfig;
use moonshine::scanner::heroic::{
    cached_image_name, default_config_dir, find_boxart, find_libraries, game_runner, installed_manifest,
    is_valid_app_name, scan_heroic_applications, Candidate, HeroicApplicationScannerConfig, HeroicFiles,
    HeroicGame, HeroicInstalledGame, HeroicManifest,
};

const CONFIG_DIR: &str = "/home/player/.config/heroic";

const SQUARE_URL: &str = "https://example.com/square.jpg";
const COVER_URL: &str = "https://example.com/cover.jpg";

fn scanner_config() -> HeroicApplicationScannerConfig {
    HeroicApplicationScannerConfig {
        config_dir: CONFIG_DIR.to_string(),
        command: vec![
            "/usr/bin/heroic".to_string(),
            "heroic://launch?appName={app_name}&runner={runner}".to_string(),
        ],
        pre_command: vec![],
        post_command: vec![],
        stdout: None,
        stderr: None,
        launch_timeout_secs: 2,
    }
}

/// The files below the configuration directory: path and contents.
struct Disk {
    files: Vec<(String, String)>,
}

impl Disk {
    fn new() -> Disk {
        Disk { files: Vec::new() }
    }

    fn write(&mut self, path: &str, contents: &str) {
        self.files.push((path.to_string(), contents.to_string()));
    }

    fn read(&self, path: &str) -> Option<&str> {
        self.files.iter().find(|f| f.0 == path).map(|f| f.1.as_str())
    }

    fn names_in(&self, dir: &str) -> Vec<String> {
        let prefix = format!("{dir}/");
        self.files
            .iter()
            .filter_map(|f| f.0.strip_prefix(prefix.as_str()))
            .map(|name| name.to_string())
            .collect()
    }

    fn cache_art(&mut self, url: &str) -> String {
        let name = cached_image_name(url);
        self.write(&format!("images-cache/{name}"), "image");
        format!("{CONFIG_DIR}/images-cache/{name}")
    }

    fn write_icon(&mut self, name: &str) -> String {
        self.write(&format!("icons/{name}"), "image");
        format!("{CONFIG_DIR}/icons/{name}")
    }

    fn scan(&self) -> Vec<ApplicationConfig> {
        let names = self.names_in("store_cache");
        let sideload = self.read("sideload_apps/library.json").is_some();
        let mut games: Vec<HeroicGame> = Vec::new();
        for path in find_libraries(CONFIG_DIR, Some(&names), sideload) {
            let path = path.strip_prefix(&format!("{CONFIG_DIR}/")).unwrap();
            games.extend(read_library(self.read(path).unwrap()));
        }
        let mut manifests: Vec<HeroicManifest> = Vec::new();
        for game in &games {
            let runner = game_runner(game);
            if manifests.iter().all(|m| m.runner != runner) {
                let path = installed_manifest(CONFIG_DIR, runner);
                let path = path.strip_prefix(&format!("{CONFIG_DIR}/")).unwrap();
                let installed = match self.read(path) {
                    Some(contents) => read_installed(contents),
                    None => Vec::new(),
                };
                manifests.push(HeroicManifest { runner: runner.to_string(), installed });
            }
        }
        let files = HeroicFiles {
            games,
            manifests,
            icons: self.names_in("icons"),
            images: self.names_in("images-cache"),
        };
        scan_heroic_applications(&scanner_config(), CONFIG_DIR, Some(&files))
    }

    fn scan_one_boxart(&self) -> Option<String> {
        let applications = self.scan();
        assert_eq!(applications.len(), 1);
        applications[0].boxart.clone()
    }
}

fn text_of(value: &serde_json::Value, key: &str) -> Option<String> {
    value.get(key).and_then(|v| v.as_str()).map(|s| s.to_string())
}

fn flag_of(value: &serde_json::Value, key: &str) -> bool {
    value.get(key).and_then(|v| v.as_bool()).unwrap_or(false)
}

fn read_library(contents: &str) -> Vec<HeroicGame> {
    let value: serde_json::Value = serde_json::from_str(contents).unwrap();
    let games = value.get("library").or_else(|| value.get("games")).unwrap();
    games
        .as_array()
        .unwrap()
        .iter()
        .map(|game| HeroicGame {
            app_name: text_of(game, "app_name").unwrap(),
            title: text_of(game, "title").unwrap(),
            runner: text_of(game, "runner"),
            is_installed: flag_of(game, "is_installed"),
            is_dlc: game.get("install").map(|i| flag_of(i, "is_dlc")).unwrap_or(false),
            art_square: text_of(game, "art_square"),
            art_cover: text_of(game, "art_cover"),
        })
        .collect()
}

fn read_installed(contents: &str) -> Vec<HeroicInstalledGame> {
    let value: serde_json::Value = serde_json::from_str(contents).unwrap();
    value
        .get("installed")
        .unwrap()
        .as_array()
        .unwrap()
        .iter()
        .map(|game| HeroicInstalledGame { app_name: text_of(game, "appName"), is_dlc: flag_of(game, "is_dlc") })
        .collect()
}

fn titles(applications: &[ApplicationConfig]) -> Vec<&str> {
    applications.iter().map(|app| app.title.as_str()).collect()
}

fn art_library(disk: &mut Disk) {
    disk.write(
        "store_cache/legendary_library.json",
        &format!(
            r#"{{"library": [{{
                "app_name": "epic-id",
                "title": "Epic Game",
                "runner": "legendary",
                "is_installed": true,
                "art_square": "{SQUARE_URL}",
                "art_cover": "{COVER_URL}"
            }}]}}"#
        ),
    );
}

fn gog_art_library(disk: &mut Disk) {
    disk.write(
        "store_cache/gog_library.json",
        &format!(
            r#"{{"games": [{{
                "app_name": "gog-id",
                "title": "GOG Game",
                "runner": "gog",
                "is_installed": false,
                "art_square": "{SQUARE_URL}",
                "art_cover": "{COVER_URL}"
            }}]}}"#
        ),
    );
    disk.write("gog_store/installed.json", r#"{"installed": [{"appName": "gog-id", "is_dlc": false}]}"#);
}

#[test]
fn scans_installed_games_across_runners() {
    let mut disk = Disk::new();
    disk.write(
        "store_cache/legendary_library.json",
        r#"{"library": [
            {"app_name": "epic-id", "title": "Epic Game", "runner": "legendary", "is_installed": true},
            {"app_name": "not-installed", "title": "Uninstalled", "runner": "legendary", "is_installed": false}
        ]}"#,
    );
    // GOG entries are always written as uninstalled, so the manifest decides.
    disk.write(
        "store_cache/gog_library.json",
        r#"{"games": [
            {"app_name": "gog-id", "title": "GOG Game", "runner": "gog", "is_installed": false},
            {"app_name": "gog-unowned", "title": "GOG Unowned", "runner": "gog", "is_installed": false}
        ]}"#,
    );
    disk.write("gog_store/installed.json", r#"{"installed": [{"appName": "gog-id", "is_dlc": false}]}"#);
    disk.write(
        "store_cache/nile_library.json",
        r#"{"library": [
            {"app_name": "amazon-id", "title": "Amazon Game", "runner": "nile", "is_installed": true}
        ]}"#,
    );
    // A store that is not known by name, with the same layout.
    disk.write(
        "store_cache/zoom_library.json",
        r#"{"games": [
            {"app_name": "zoom-id", "title": "Zoom Game", "runner": "zoom", "is_installed": true}
        ]}"#,
    );
    disk.write(
        "sideload_apps/library.json",
        r#"{"games": [{"app_name": "side-id", "title": "Sideloaded", "is_installed": true}]}"#,
    );

    let applications = disk.scan();

    // Store caches are scanned in name order, with sideloaded games last.
    assert_eq!(
        titles(&applications),
        vec!["GOG Game", "Epic Game", "Amazon Game", "Zoom Game", "Sideloaded"]
    );

    assert_eq!(
        applications[0].command,
        vec!["/usr/bin/heroic", "heroic://launch?appName=gog-id&runner=gog"]
    );
    assert_eq!(
        applications[1].command,
        vec!["/usr/bin/heroic", "heroic://launch?appName=epic-id&runner=legendary"]
    );
    assert_eq!(
        applications[3].command,
        vec!["/usr/bin/heroic", "heroic://launch?appName=zoom-id&runner=zoom"]
    );
}

#[test]
fn skips_installed_dlc() {
    let mut disk = Disk::new();
    disk.write(
        "store_cache/legendary_library.json",
        r#"{"library": [
            {"app_name": "Eider", "title": "HITMAN 3", "runner": "legendary", "is_installed": true,
             "install": {"is_dlc": false}},
            {"app_name": "EiderBonusSuitPack", "title": "HITMAN WOA - Trinity Pack", "runner": "legendary",
             "is_installed": true, "install": {"is_dlc": true}},
            {"app_name": "no-install-block", "title": "No Install Block", "runner": "legendary", "is_installed": true}
        ]}"#,
    );

    assert_eq!(titles(&disk.scan()), vec!["HITMAN 3", "No Install Block"]);
}

#[test]
fn skips_gog_games_when_the_installed_manifest_is_missing() {
    let mut disk = Disk::new();
    disk.write(
        "store_cache/gog_library.json",
        r#"{"games": [
            {"app_name": "gog-id", "title": "GOG Game", "runner": "gog", "is_installed": false}
        ]}"#,
    );

    let applications = disk.scan();
    assert!(applications.is_empty());
}

#[test]
fn skips_gog_dlc_recorded_in_the_installed_manifest() {
    let mut disk = Disk::new();
    disk.write(
        "store_cache/gog_library.json",
        r#"{"games": [
            {"app_name": "gog-redist", "title": "Galaxy Common Redistributables", "runner": "gog",
             "is_installed": true, "install": {"is_dlc": true}},
            {"app_name": "gog-id", "title": "GOG Game", "runner": "gog", "is_installed": false},
            {"app_name": "gog-dlc", "title": "GOG DLC", "runner": "gog", "is_installed": false}
        ]}"#,
    );
    disk.write(
        "gog_store/installed.json",
        r#"{"installed": [
            {"appName": "gog-id", "is_dlc": false},
            {"appName": "gog-dlc", "is_dlc": true},
            {"install_path": "/games/orphan"}
        ]}"#,
    );

    assert_eq!(titles(&disk.scan()), vec!["GOG Game"]);
}

#[test]
fn defaults_missing_runner_to_sideload() {
    let mut disk = Disk::new();
    disk.write(
        "sideload_apps/library.json",
        r#"{"games": [{"app_name": "side-id", "title": "Sideloaded", "is_installed": true}]}"#,
    );

    let applications = disk.scan();

    assert_eq!(applications.len(), 1);
    assert_eq!(
        applications[0].command,
        vec!["/usr/bin/heroic", "heroic://launch?appName=side-id&runner=sideload"]
    );
}

#[test]
fn falls_back_to_the_banner_when_it_is_the_only_cached_art() {
    let mut disk = Disk::new();
    art_library(&mut disk);
    let cover_path = disk.cache_art(COVER_URL);

    assert_eq!(disk.scan_one_boxart(), Some(cover_path));
}

#[test]
fn prefers_portrait_art_cached_under_a_resized_url() {
    let mut disk = Disk::new();
    art_library(&mut disk);
    disk.cache_art(COVER_URL);
    let square_path = disk.cache_art(&format!("{SQUARE_URL}?h=400&resize=1&w=300"));

    assert_eq!(disk.scan_one_boxart(), Some(square_path));
}

#[test]
fn prefers_the_full_resolution_icon_over_the_image_cache() {
    let mut disk = Disk::new();
    art_library(&mut disk);
    disk.cache_art(COVER_URL);
    disk.cache_art(&format!("{SQUARE_URL}?h=400&resize=1&w=300"));

    let icon = disk.write_icon("epic-id.jpg");

    assert_eq!(disk.scan_one_boxart(), Some(icon));
}

#[test]
fn passes_over_a_substituted_store_icon_for_cover_art() {
    let mut disk = Disk::new();
    gog_art_library(&mut disk);
    let square_path = disk.cache_art(SQUARE_URL);

    // A PNG under icons/ is the store's own logo, not cover art.
    disk.write_icon("gog-id.png");

    assert_eq!(disk.scan_one_boxart(), Some(square_path));
}

#[test]
fn still_uses_the_icons_entry_of_a_store_that_substitutes_icons() {
    let mut disk = Disk::new();
    gog_art_library(&mut disk);
    disk.cache_art(SQUARE_URL);

    let icon = disk.write_icon("gog-id.jpg");

    assert_eq!(disk.scan_one_boxart(), Some(icon));
}

#[test]
fn ignores_an_app_name_that_would_escape_the_icons_directory() {
    let mut disk = Disk::new();
    disk.write(
        "store_cache/legendary_library.json",
        r#"{"library": [
            {"app_name": "../../etc/passwd", "title": "Traversal", "runner": "legendary", "is_installed": true}
        ]}"#,
    );

    assert_eq!(disk.scan_one_boxart(), None);
}

#[test]
fn returns_nothing_when_heroic_is_not_installed() {
    let applications = scan_heroic_applications(&scanner_config(), CONFIG_DIR, None);
    assert!(applications.is_empty());
}

#[test]
fn cached_images_are_named_by_the_digest_of_their_address() {
    // The digest of the three letters "abc".
    assert_eq!(
        cached_image_name("abc"),
        "ba7816bf8f01cfea414140de5dae2223b00361a396177a9cb410ff61f20015ad"
    );
    assert_eq!(
        cached_image_name(""),
        "e3b0c44298fc1c149afbf4c8996fb92427ae41e4649b934ca495991b7852b855"
    );
}

#[test]
fn libraries_come_in_the_order_of_their_names() {
    let names = vec![
        "zoom_library.json".to_string(),
        "gog_install_info.json".to_string(),
        "gog_library.json".to_string(),
    ];
    assert_eq!(
        find_libraries("/h", Some(&names), true),
        vec!["/h/store_cache/gog_library.json", "/h/store_cache/zoom_library.json", "/h/sideload_apps/library.json"]
    );
    assert_eq!(find_libraries("/h", None, true), vec!["/h/sideload_apps/library.json"]);
    assert!(find_libraries("/h", None, false).is_empty());
}

#[test]
fn a_native_installation_is_preferred() {
    let native = |exists: bool| Candidate { path: "/n".to_string(), exists };
    let flatpak = |exists: bool| Candidate { path: "/f".to_string(), exists };
    assert_eq!(default_config_dir(&native(true), Some(&flatpak(true))), "/n");
    assert_eq!(default_config_dir(&native(false), Some(&flatpak(true))), "/f");
    assert_eq!(default_config_dir(&native(false), Some(&flatpak(false))), "/n");
    assert_eq!(default_config_dir(&native(false), None), "/n");
}

#[test]
fn app_names_are_letters_digits_and_dashes() {
    assert!(is_valid_app_name("Eider_2-b"));
    assert!(!is_valid_app_name(""));
    assert!(!is_valid_app_name("a.b"));
    assert!(!is_valid_app_name("a/b"));
    assert!(!is_valid_app_name("é"));
}

#[test]
fn the_last_entry_of_a_manifest_counts() {
    let game = HeroicGame {
        app_name: "a".to_string(),
        title: "A".to_string(),
        runner: Some("gog".to_string()),
        is_installed: false,
        is_dlc: false,
        art_square: None,
        art_cover: Some(String::new()),
    };
    assert_eq!(find_boxart("/h", &game, &vec![], &vec![]), None);
    let entry = |is_dlc: bool| HeroicInstalledGame { app_name: Some("a".to_string()), is_dlc };
    let files = |installed: Vec<HeroicInstalledGame>| HeroicFiles {
        games: vec![HeroicGame {
            app_name: "a".to_string(),
            title: "A".to_string(),
            runner: Some("gog".to_string()),
            is_installed: false,
            is_dlc: false,
            art_square: None,
            art_cover: None,
        }],
        manifests: vec![HeroicManifest { runner: "gog".to_string(), installed }],
        icons: vec![],
        images: vec![],
    };
    let config = scanner_config();
    assert!(scan_heroic_applications(&config, "/h", Some(&files(vec![entry(false), entry(true)]))).is_empty());
    assert_eq!(scan_heroic_applications(&config, "/h", Some(&files(vec![entry(true), entry(false)]))).len(), 1);
}
