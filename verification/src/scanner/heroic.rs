//! Games of the Heroic launcher.
//!
//! Reading its library caches, the manifests of installed games and the
//! directories of its images is left to the caller, who hands in what was
//! read.
use vstd::prelude::*;
use vstd::utf8;

use crate::application::ApplicationConfig;
use crate::digest;
use crate::scanner::common;
use crate::scanner::common::Settings;
use crate::text;

verus! {

/// Where Heroic is found, and what is set on its games.
#[derive(Debug)]
pub struct HeroicApplicationScannerConfig {
    /// Path to its configuration.
    pub config_dir: String,
    /// The command to run.
    pub command: Vec<String>,
    /// Commands to run before it.
    pub pre_command: Vec<Vec<String>>,
    /// Commands to run after the session.
    pub post_command: Vec<Vec<String>>,
    /// Where its output goes.
    pub stdout: Option<String>,
    /// Where its errors go.
    pub stderr: Option<String>,
    /// Seconds that it has to stay up after it was launched.
    pub launch_timeout_secs: u64,
}

impl HeroicApplicationScannerConfig {
    /// What is set on every game.
    pub open spec fn settings_spec(&self) -> Settings<'_> {
        Settings {
            pre_command: &self.pre_command,
            post_command: &self.post_command,
            stdout: &self.stdout,
            stderr: &self.stderr,
            launch_timeout_secs: self.launch_timeout_secs,
        }
    }

    /// What is set on every game.
    fn settings(&self) -> (r: Settings<'_>)
        ensures
            r == self.settings_spec(),
    {
        Settings {
            pre_command: &self.pre_command,
            post_command: &self.post_command,
            stdout: &self.stdout,
            stderr: &self.stderr,
            launch_timeout_secs: self.launch_timeout_secs,
        }
    }
}

/// A name of a library cache ends in this.
pub open spec fn is_library(name: Seq<char>) -> bool {
    text::has_suffix(name, "_library.json"@)
}

/// The names of library caches among `names`.
pub open spec fn library_names(names: Seq<Seq<char>>) -> Seq<Seq<char>>
    decreases names.len(),
{
    if names.len() == 0 {
        names
    } else if is_library(names.last()) {
        library_names(names.drop_last()).push(names.last())
    } else {
        library_names(names.drop_last())
    }
}

/// Whether it is the name of a library cache; see [`is_library`].
fn names_library(name: &str) -> (r: bool)
    ensures
        r == is_library(name@),
{
    let name = text::chars_of(name);
    let suffix = text::chars_of("_library.json");
    if name.len() < suffix.len() {
        return false;
    }
    let tail = text::sub_chars(name.as_slice(), name.len() - suffix.len(), name.len());
    text::same_chars(tail.as_slice(), suffix.as_slice())
}

/// The paths of all library caches: those of the stores in the order of their
/// names, then the one of games that were added by hand, where it is there.
/// `names` are the files among the caches of the stores, `None` where that
/// directory could not be read.
pub open spec fn libraries_of(
    config_dir: Seq<char>,
    names: Option<Seq<Seq<char>>>,
    sideload_exists: bool,
) -> Seq<Seq<char>> {
    let found = match names {
        Some(n) => common::sorted(library_names(n)),
        None => Seq::empty(),
    };
    let store_cache = common::path_below(config_dir, "store_cache"@);
    found.map_values(|n: Seq<char>| common::path_below(store_cache, n)) + if sideload_exists {
        seq![common::path_below(config_dir, "sideload_apps/library.json"@)]
    } else {
        Seq::empty()
    }
}

/// The paths of all library caches; see [`libraries_of`].
pub fn find_libraries(config_dir: &str, names: Option<&Vec<String>>, sideload_exists: bool) -> (r: Vec<
    String,
>)
    ensures
        text::texts(r@) == libraries_of(
            config_dir@,
            match names {
                Some(n) => Some(text::texts(n@)),
                None => None,
            },
            sideload_exists,
        ),
{
    let store_cache = common::join_path(config_dir, "store_cache");
    let ghost below = |n: Seq<char>| common::path_below(store_cache@, n);
    let mut r: Vec<String> = Vec::new();
    let ghost mut found: Seq<Seq<char>> = Seq::empty();
    if let Some(names) = names {
        let ghost all = text::texts(names@);
        let mut caches: Vec<String> = Vec::new();
        let mut i: usize = 0;
        assert(text::texts(caches@) == library_names(all.take(0)));
        while i < names.len()
            invariant
                i <= names@.len(),
                all == text::texts(names@),
                text::texts(caches@) == library_names(all.take(i as int)),
            decreases names@.len() - i,
        {
            proof {
                assert(all.take(i + 1).drop_last() == all.take(i as int));
                assert(all.take(i + 1).last() == names@[i as int]@);
            }
            if names_library(names[i].as_str()) {
                let ghost before = text::texts(caches@);
                caches.push(names[i].clone());
                assert(text::texts(caches@) == before.push(names@[i as int]@));
            }
            i = i + 1;
        }
        assert(all.take(all.len() as int) == all);
        let caches = common::sort_texts(&caches);
        proof {
            found = text::texts(caches@);
        }
        let mut k: usize = 0;
        while k < caches.len()
            invariant
                k <= caches@.len(),
                found == text::texts(caches@),
                below == (|n: Seq<char>| common::path_below(store_cache@, n)),
                text::texts(r@) == found.take(k as int).map_values(below),
            decreases caches@.len() - k,
        {
            let ghost before = text::texts(r@);
            r.push(common::join_path(store_cache.as_str(), caches[k].as_str()));
            k = k + 1;
            proof {
                assert(text::texts(r@) == before.push(r@[k - 1]@));
                assert(found.take(k as int).map_values(below) == before.push(below(found[k - 1])));
            }
        }
        assert(found.take(found.len() as int) == found);
    }
    let ghost before = text::texts(r@);
    assert(before == found.map_values(below));
    if sideload_exists {
        r.push(common::join_path(config_dir, "sideload_apps/library.json"));
        assert(text::texts(r@) == before + seq![r@.last()@]);
    } else {
        assert(before + Seq::<Seq<char>>::empty() == before);
    }
    r
}

/// Where a store keeps the manifest of its installed games.
pub fn installed_manifest(config_dir: &str, runner: &str) -> (r: String)
    ensures
        r@ == common::path_below(
            common::path_below(config_dir@, runner@ + "_store"@),
            "installed.json"@,
        ),
{
    let store = text::joined(runner, "_store");
    let dir = common::join_path(config_dir, store.as_str());
    common::join_path(dir.as_str(), "installed.json")
}

/// A directory, and whether it is there.
#[derive(Debug)]
pub struct Candidate {
    /// The path.
    pub path: String,
    /// It is there.
    pub exists: bool,
}

/// The configuration of Heroic: that of a native installation, unless only
/// that of a Flatpak is there.
pub fn default_config_dir(native: &Candidate, flatpak: Option<&Candidate>) -> (r: String)
    ensures
        r == if !native.exists && flatpak is Some && flatpak->0.exists {
            flatpak->0.path
        } else {
            native.path
        },
{
    if native.exists {
        return native.path.clone();
    }
    match flatpak {
        Some(f) => if f.exists {
            f.path.clone()
        } else {
            native.path.clone()
        },
        None => native.path.clone(),
    }
}

/// An entry of a library cache.
#[derive(Debug)]
pub struct HeroicGame {
    /// The game's name in its store.
    pub app_name: String,
    /// Its title.
    pub title: String,
    /// Its store; sideloaded games have none.
    pub runner: Option<String>,
    /// The cache has it as installed.
    pub is_installed: bool,
    /// The cache has it as an addition to another game.
    pub is_dlc: bool,
    /// Address of portrait art.
    pub art_square: Option<String>,
    /// Address of landscape art.
    pub art_cover: Option<String>,
}

/// An entry of a manifest of installed games.
#[derive(Debug)]
pub struct HeroicInstalledGame {
    /// The game's name in its store; entries without one are passed over.
    pub app_name: Option<String>,
    /// It is an addition to another game.
    pub is_dlc: bool,
}

/// The manifest of a store.
#[derive(Debug)]
pub struct HeroicManifest {
    /// The store.
    pub runner: String,
    /// Its installed games; none where the manifest is missing or unreadable.
    pub installed: Vec<HeroicInstalledGame>,
}

/// The store of a game.
pub open spec fn runner_of(game: HeroicGame) -> Seq<char> {
    match game.runner {
        Some(r) => r@,
        None => "sideload"@,
    }
}

/// The store of a game; see [`runner_of`].
pub fn game_runner(game: &HeroicGame) -> (r: &str)
    ensures
        r@ == runner_of(*game),
{
    match &game.runner {
        Some(r) => r.as_str(),
        None => "sideload",
    }
}

/// What a manifest says of a game: whether it is an addition, nothing where
/// the game is not in it. The last entry counts.
pub open spec fn entry_of(installed: Seq<HeroicInstalledGame>, app_name: Seq<char>) -> Option<bool>
    decreases installed.len(),
{
    if installed.len() == 0 {
        None
    } else if installed.last().app_name is Some && installed.last().app_name->0@ == app_name {
        Some(installed.last().is_dlc)
    } else {
        entry_of(installed.drop_last(), app_name)
    }
}

/// What the first manifest of a store says of a game.
pub open spec fn manifest_entry(
    manifests: Seq<HeroicManifest>,
    runner: Seq<char>,
    app_name: Seq<char>,
) -> Option<bool>
    decreases manifests.len(),
{
    if manifests.len() == 0 {
        None
    } else if manifests[0].runner@ == runner {
        entry_of(manifests[0].installed@, app_name)
    } else {
        manifest_entry(manifests.skip(1), runner, app_name)
    }
}

/// What a manifest says of a game; see [`entry_of`].
fn find_entry(installed: &Vec<HeroicInstalledGame>, app_name: &str) -> (r: Option<bool>)
    ensures
        r == entry_of(installed@, app_name@),
{
    let mut i: usize = installed.len();
    assert(installed@.take(i as int) == installed@);
    while i > 0
        invariant
            i <= installed@.len(),
            entry_of(installed@, app_name@) == entry_of(installed@.take(i as int), app_name@),
        decreases i,
    {
        i = i - 1;
        assert(installed@.take(i + 1).drop_last() == installed@.take(i as int));
        if let Some(name) = &installed[i].app_name {
            if text::same_text(name.as_str(), app_name) {
                return Some(installed[i].is_dlc);
            }
        }
    }
    None
}

/// What the first manifest of a store says of a game; see [`manifest_entry`].
fn find_manifest_entry(manifests: &Vec<HeroicManifest>, runner: &str, app_name: &str) -> (r: Option<
    bool,
>)
    ensures
        r == manifest_entry(manifests@, runner@, app_name@),
{
    let mut i: usize = 0;
    assert(manifests@.skip(0) == manifests@);
    while i < manifests.len()
        invariant
            i <= manifests@.len(),
            manifest_entry(manifests@, runner@, app_name@) == manifest_entry(
                manifests@.skip(i as int),
                runner@,
                app_name@,
            ),
        decreases manifests@.len() - i,
    {
        assert(manifests@.skip(i as int).skip(1) == manifests@.skip(i + 1));
        if text::same_text(manifests[i].runner.as_str(), runner) {
            return find_entry(&manifests[i].installed, app_name);
        }
        i = i + 1;
    }
    None
}

/// The game is listed: its cache or its store's manifest has it as installed,
/// and neither has it as an addition to another game.
pub open spec fn is_launchable(game: HeroicGame, manifests: Seq<HeroicManifest>) -> bool {
    let entry = manifest_entry(manifests, runner_of(game), game.app_name@);
    (game.is_installed || entry is Some) && !game.is_dlc && entry != Some(true)
}

/// The games that are listed.
pub open spec fn launchable(manifests: Seq<HeroicManifest>) -> spec_fn(HeroicGame) -> bool {
    |g: HeroicGame| is_launchable(g, manifests)
}

/// Whether the game is listed; see [`is_launchable`].
pub fn is_listed_game(game: &HeroicGame, manifests: &Vec<HeroicManifest>) -> (r: bool)
    ensures
        r == is_launchable(*game, manifests@),
{
    let entry = find_manifest_entry(manifests, game_runner(game), game.app_name.as_str());
    let in_manifest = match entry {
        Some(_) => true,
        None => false,
    };
    let manifest_dlc = match entry {
        Some(dlc) => dlc,
        None => false,
    };
    (game.is_installed || in_manifest) && !game.is_dlc && !manifest_dlc
}

/// A character of a name that can stand in a file's name.
pub open spec fn is_name_char(c: char) -> bool {
    common::is_alphanumeric(c) || c == '-' || c == '_'
}

/// A name that can stand in a file's name.
pub open spec fn is_app_name(s: Seq<char>) -> bool {
    s.len() > 0 && forall|i: int| 0 <= i < s.len() ==> is_name_char(#[trigger] s[i])
}

/// A name that can stand in a file's name; see [`is_app_name`].
pub fn is_valid_app_name(app_name: &str) -> (r: bool)
    ensures
        r == is_app_name(app_name@),
{
    let chars = text::chars_of(app_name);
    let mut i: usize = 0;
    while i < chars.len()
        invariant
            i <= chars@.len(),
            chars@ == app_name@,
            forall|j: int| 0 <= j < i ==> is_name_char(#[trigger] chars@[j]),
        decreases chars@.len() - i,
    {
        let c = chars[i];
        if !(common::is_ascii_alphanumeric(c) || c == '-' || c == '_') {
            assert(!is_name_char(chars@[i as int]));
            return false;
        }
        i = i + 1;
    }
    chars.len() > 0
}

/// The addresses under which an image may have been kept: resized, then as it
/// is. Nothing where there is no address.
pub open spec fn art_urls(url: Option<String>) -> Seq<Seq<char>> {
    if url is Some && url->0@.len() > 0 {
        seq![
            url->0@ + "?h=800&resize=1&w=600"@,
            url->0@ + "?h=400&resize=1&w=300"@,
            url->0@,
        ]
    } else {
        Seq::empty()
    }
}

/// The name of the file in which the image from an address is kept.
pub open spec fn image_name(url: Seq<char>) -> Seq<char> {
    digest::fingerprint_of(utf8::encode_utf8(url))
}

/// The name of the file in which the image from an address is kept; see
/// [`image_name`].
pub fn cached_image_name(url: &str) -> (r: String)
    ensures
        r@ == image_name(url@),
{
    digest::fingerprint(url.as_bytes())
}

/// The first of some names that is among the images.
pub open spec fn first_image(names: Seq<Seq<char>>, images: Seq<Seq<char>>) -> Option<Seq<char>>
    decreases names.len(),
{
    if names.len() == 0 {
        None
    } else {
        match first_image(names.drop_last(), images) {
            Some(n) => Some(n),
            None => if images.contains(names.last()) {
                Some(names.last())
            } else {
                None
            },
        }
    }
}

/// An image that was found is among the images and among the names.
pub proof fn first_image_is_there(names: Seq<Seq<char>>, images: Seq<Seq<char>>)
    ensures
        first_image(names, images) matches Some(n) ==> images.contains(n) && names.contains(n),
    decreases names.len(),
{
    if names.len() > 0 {
        let rest = names.drop_last();
        first_image_is_there(rest, images);
        if let Some(n) = first_image(rest, images) {
            let k = choose|k: int| 0 <= k < rest.len() && rest[k] == n;
            assert(names[k] == n);
        } else {
            assert(names[names.len() - 1] == names.last());
        }
    }
}

/// The first of some names that is among the images; see [`first_image`].
pub fn find_image(names: &Vec<String>, images: &Vec<String>) -> (r: Option<String>)
    ensures
        common::maybe(r) == first_image(text::texts(names@), text::texts(images@)),
{
    let ghost all = text::texts(names@);
    let mut r: Option<String> = None;
    let mut i: usize = 0;
    while i < names.len()
        invariant
            i <= names@.len(),
            all == text::texts(names@),
            common::maybe(r) == first_image(all.take(i as int), text::texts(images@)),
        decreases names@.len() - i,
    {
        proof {
            assert(all.take(i + 1).drop_last() == all.take(i as int));
            assert(all.take(i + 1).last() == names@[i as int]@);
        }
        if let None = r {
            if common::is_listed(images, names[i].as_str()) {
                r = Some(names[i].clone());
            }
        }
        i = i + 1;
    }
    assert(all.take(all.len() as int) == all);
    r
}

/// The names of the files in which images of a game may be kept, portrait art
/// first.
pub open spec fn image_names(game: HeroicGame) -> Seq<Seq<char>> {
    (art_urls(game.art_square) + art_urls(game.art_cover)).map_values(|u: Seq<char>| image_name(u))
}

/// Adds the names of the files for one address.
fn push_image_names(names: &mut Vec<String>, url: &Option<String>)
    ensures
        text::texts(final(names)@) == text::texts(old(names)@) + art_urls(*url).map_values(
            |u: Seq<char>| image_name(u),
        ),
{
    let ghost before = text::texts(names@);
    let ghost kept = |u: Seq<char>| image_name(u);
    if let Some(u) = url {
        let chars = text::chars_of(u.as_str());
        if chars.len() > 0 {
            let large = text::joined(u.as_str(), "?h=800&resize=1&w=600");
            let small = text::joined(u.as_str(), "?h=400&resize=1&w=300");
            names.push(cached_image_name(large.as_str()));
            names.push(cached_image_name(small.as_str()));
            names.push(cached_image_name(u.as_str()));
            proof {
                let added = art_urls(*url).map_values(kept);
                assert(added == seq![image_name(large@), image_name(small@), image_name(u@)]);
                assert(text::texts(names@) == before + added);
            }
            return;
        }
    }
    proof {
        assert(art_urls(*url).map_values(kept) == Seq::<Seq<char>>::empty());
        assert(before + Seq::<Seq<char>>::empty() == before);
    }
}

/// The image of a game that suits best among those that Heroic has on disk:
/// its icon as a JPEG, then portrait art, then landscape art. A PNG among the
/// icons is a store's own logo and does not count. `icons` and `images` are
/// the names of the files in the two directories.
pub open spec fn boxart_of(
    config_dir: Seq<char>,
    game: HeroicGame,
    icons: Seq<Seq<char>>,
    images: Seq<Seq<char>>,
) -> Option<Seq<char>> {
    let icon = game.app_name@ + ".jpg"@;
    if is_app_name(game.app_name@) && icons.contains(icon) {
        Some(common::path_below(common::path_below(config_dir, "icons"@), icon))
    } else {
        match first_image(image_names(game), images) {
            Some(n) => Some(common::path_below(common::path_below(config_dir, "images-cache"@), n)),
            None => None,
        }
    }
}

/// The image of a game that suits best; see [`boxart_of`].
pub fn find_boxart(
    config_dir: &str,
    game: &HeroicGame,
    icons: &Vec<String>,
    images: &Vec<String>,
) -> (r: Option<String>)
    ensures
        common::maybe(r) == boxart_of(
            config_dir@,
            *game,
            text::texts(icons@),
            text::texts(images@),
        ),
{
    if is_valid_app_name(game.app_name.as_str()) {
        let icon = text::joined(game.app_name.as_str(), ".jpg");
        if common::is_listed(icons, icon.as_str()) {
            let dir = common::join_path(config_dir, "icons");
            return Some(common::join_path(dir.as_str(), icon.as_str()));
        }
    }
    let mut names: Vec<String> = Vec::new();
    push_image_names(&mut names, &game.art_square);
    let ghost first = text::texts(names@);
    push_image_names(&mut names, &game.art_cover);
    proof {
        let kept = |u: Seq<char>| image_name(u);
        assert(first == art_urls(game.art_square).map_values(kept));
        assert(image_names(*game) == first + art_urls(game.art_cover).map_values(kept));
    }
    match find_image(&names, images) {
        Some(n) => {
            let dir = common::join_path(config_dir, "images-cache");
            Some(common::join_path(dir.as_str(), n.as_str()))
        },
        None => None,
    }
}

/// The command for a game, with its name and its store filled in.
pub open spec fn command_of(command: Seq<Seq<char>>, game: HeroicGame) -> Seq<Seq<char>> {
    common::filled(
        common::filled(command, "{app_name}"@, game.app_name@),
        "{runner}"@,
        runner_of(game),
    )
}

/// What was read of Heroic's files.
#[derive(Debug)]
pub struct HeroicFiles {
    /// The library caches that could be read, in the order of
    /// [`find_libraries`], one game after the other.
    pub games: Vec<HeroicGame>,
    /// The manifests of the stores.
    pub manifests: Vec<HeroicManifest>,
    /// The names of the icons.
    pub icons: Vec<String>,
    /// The names of the images.
    pub images: Vec<String>,
}

/// `app` is the application of `game`.
pub open spec fn is_app_of(
    app: ApplicationConfig,
    config: HeroicApplicationScannerConfig,
    config_dir: Seq<char>,
    files: HeroicFiles,
    game: HeroicGame,
) -> bool {
    common::is_found(
        app,
        config.settings_spec(),
        game.title@,
        command_of(text::texts(config.command@), game),
        boxart_of(config_dir, game, text::texts(files.icons@), text::texts(files.images@)),
    )
}

/// The applications of the games that are installed and no additions to
/// others, in their order. `config_dir` is the path of the configuration;
/// `None` for `files` says that there is no such directory.
pub fn scan_heroic_applications(
    config: &HeroicApplicationScannerConfig,
    config_dir: &str,
    files: Option<&HeroicFiles>,
) -> (r: Vec<ApplicationConfig>)
    ensures
        match files {
            None => r@.len() == 0,
            Some(files) => {
                let listed = files.games@.filter(launchable(files.manifests@));
                &&& r@.len() == listed.len()
                &&& forall|i: int|
                    #![trigger r@[i]]
                    0 <= i < r@.len() ==> is_app_of(r@[i], *config, config_dir@, *files, listed[i])
            },
        },
{
    let mut r: Vec<ApplicationConfig> = Vec::new();
    let files = match files {
        Some(files) => files,
        None => return r,
    };
    let settings = config.settings();
    let games = &files.games;
    let ghost keep = launchable(files.manifests@);
    let mut i: usize = 0;
    proof {
        reveal(Seq::filter);
        reveal_strlit("{app_name}");
        reveal_strlit("{runner}");
    }
    while i < games.len()
        invariant
            i <= games@.len(),
            *games == files.games,
            keep == launchable(files.manifests@),
            settings == config.settings_spec(),
            "{app_name}"@.len() > 0,
            "{runner}"@.len() > 0,
            r@.len() == games@.take(i as int).filter(keep).len(),
            forall|k: int|
                #![trigger r@[k]]
                0 <= k < r@.len() ==> is_app_of(
                    r@[k],
                    *config,
                    config_dir@,
                    *files,
                    games@.take(i as int).filter(keep)[k],
                ),
        decreases games@.len() - i,
    {
        let game = &games[i];
        proof {
            reveal(Seq::filter);
            assert(games@.take(i + 1).drop_last() == games@.take(i as int));
        }
        if is_listed_game(game, &files.manifests) {
            let boxart = find_boxart(config_dir, game, &files.icons, &files.images);
            let command = common::fill(&config.command, "{app_name}", game.app_name.as_str());
            let command = common::fill(&command, "{runner}", game_runner(game));
            let ghost before = r@;
            r.push(common::found_application(&settings, game.title.as_str(), command, boxart));
            proof {
                let kept = games@.take(i as int).filter(keep);
                let now = games@.take(i + 1).filter(keep);
                assert(now == kept.push(*game));
                assert forall|k: int| #![trigger r@[k]] 0 <= k < r@.len() implies is_app_of(
                    r@[k],
                    *config,
                    config_dir@,
                    *files,
                    now[k],
                ) by {
                    if k < before.len() {
                        assert(r@[k] == before[k]);
                        assert(now[k] == kept[k]);
                    }
                }
            }
        }
        i = i + 1;
    }
    assert(games@.take(games@.len() as int) == games@);
    r
}

/// A game whose name could lead out of the icons' directory never gets an
/// icon from there, and one that gets one has a name without slashes and dots.
pub proof fn icons_stay_in_directory(app_name: Seq<char>)
    requires
        is_app_name(app_name),
    ensures
        !app_name.contains('/'),
        !app_name.contains('.'),
{
    assert forall|i: int| 0 <= i < app_name.len() implies app_name[i] != '/' && app_name[i] != '.' by {
        assert(is_name_char(app_name[i]));
    }
}

/// Nothing that is listed is an addition to another game, and all of it is
/// installed.
pub proof fn listed_games_are_installed(games: Seq<HeroicGame>, manifests: Seq<HeroicManifest>, i: int)
    requires
        0 <= i < games.filter(launchable(manifests)).len(),
    ensures
        is_launchable(games.filter(launchable(manifests))[i], manifests),
        games.contains(games.filter(launchable(manifests))[i]),
{
    broadcast use vstd::seq_lib::group_filter_ensures;

    let keep = launchable(manifests);
    let listed = games.filter(keep);
    assert(keep(listed[i]));
    assert(listed.contains(listed[i]));
    games.lemma_filter_contains_rev(keep, listed[i]);
}

/// What a manifest says of a game is what its last entry of the game's name
/// says; it says nothing where it has no such entry.
pub proof fn last_entry_counts(installed: Seq<HeroicInstalledGame>, app_name: Seq<char>)
    ensures
        match entry_of(installed, app_name) {
            Some(dlc) => exists|i: int|
                0 <= i < installed.len() && ((#[trigger] installed[i]).app_name matches Some(n) && n@
                    == app_name) && installed[i].is_dlc == dlc && (forall|j: int|
                    i < j < installed.len() ==> !((#[trigger] installed[j]).app_name matches Some(n) && n@
                        == app_name)),
            None => forall|j: int|
                0 <= j < installed.len() ==> !((#[trigger] installed[j]).app_name matches Some(n) && n@
                    == app_name),
        },
    decreases installed.len(),
{
    if installed.len() > 0 {
        let rest = installed.drop_last();
        last_entry_counts(rest, app_name);
        let last = installed.len() - 1;
        assert(forall|j: int| 0 <= j < last ==> rest[j] == installed[j]);
        let named = installed[last].app_name matches Some(n) && n@ == app_name;
        if named {
            assert(installed[last].is_dlc == entry_of(installed, app_name)->0);
        } else if entry_of(installed, app_name) is Some {
            let dlc = entry_of(installed, app_name)->0;
            let i = choose|i: int|
                0 <= i < rest.len() && ((#[trigger] rest[i]).app_name matches Some(n) && n@ == app_name)
                    && rest[i].is_dlc == dlc && (forall|j: int|
                    i < j < rest.len() ==> !((#[trigger] rest[j]).app_name matches Some(n) && n@
                        == app_name));
            assert(installed[i] == rest[i]);
            assert forall|j: int| i < j < installed.len() implies !((
            #[trigger] installed[j]).app_name matches Some(n) && n@ == app_name) by {
                if j < last {
                    assert(rest[j] == installed[j]);
                }
            }
        } else {
            assert forall|j: int| 0 <= j < installed.len() implies !((
            #[trigger] installed[j]).app_name matches Some(n) && n@ == app_name) by {
                if j < last {
                    assert(rest[j] == installed[j]);
                }
            }
        }
    }
}

/// A game of Heroic is listed exactly if it is installed, by its cache or by
/// its store's manifest, and neither has it as an addition to another game.
pub proof fn every_installed_game_is_listed(games: Seq<HeroicGame>, manifests: Seq<HeroicManifest>, i: int)
    requires
        0 <= i < games.len(),
    ensures
        ({
            let g = games[i];
            let store = match g.runner {
                Some(r) => r@,
                None => "sideload"@,
            };
            let entry = manifest_entry(manifests, store, g.app_name@);
            games.filter(launchable(manifests)).contains(g) <==> (g.is_installed || entry is Some) && !(
            g.is_dlc || entry == Some(true))
        }),
{
    broadcast use vstd::seq_lib::group_filter_ensures;

    let keep = launchable(manifests);
    if keep(games[i]) {
        games.lemma_filter_contains(keep, i);
    }
    if games.filter(keep).contains(games[i]) {
        let listed = games.filter(keep);
        let k = choose|k: int| 0 <= k < listed.len() && listed[k] == games[i];
        assert(keep(listed[k]));
    }
}

/// The first manifest of a store speaks for it; without one nothing is said.
pub proof fn first_manifest_speaks(
    manifests: Seq<HeroicManifest>,
    runner: Seq<char>,
    app_name: Seq<char>,
    i: int,
)
    ensures
        0 <= i < manifests.len() && manifests[i].runner@ == runner && (forall|j: int|
            0 <= j < i ==> (#[trigger] manifests[j]).runner@ != runner) ==> manifest_entry(
            manifests,
            runner,
            app_name,
        ) == entry_of(manifests[i].installed@, app_name),
        (forall|j: int| 0 <= j < manifests.len() ==> (#[trigger] manifests[j]).runner@ != runner)
            ==> manifest_entry(manifests, runner, app_name) is None,
    decreases manifests.len(),
{
    if manifests.len() > 0 {
        let rest = manifests.skip(1);
        assert(forall|j: int| 0 <= j < rest.len() ==> rest[j] == manifests[j + 1]);
        first_manifest_speaks(rest, runner, app_name, i - 1);
        if 0 <= i < manifests.len() && manifests[i].runner@ == runner && (forall|j: int|
            0 <= j < i ==> (#[trigger] manifests[j]).runner@ != runner) {
            if i > 0 {
                assert(manifests[0].runner@ != runner);
                assert forall|j: int| 0 <= j < i - 1 implies (#[trigger] rest[j]).runner@ != runner by {
                    assert(manifests[j + 1].runner@ != runner);
                }
            }
        }
        if forall|j: int| 0 <= j < manifests.len() ==> (#[trigger] manifests[j]).runner@ != runner {
            assert(manifests[0].runner@ != runner);
            assert forall|j: int| 0 <= j < rest.len() implies (#[trigger] rest[j]).runner@ != runner by {
                assert(manifests[j + 1].runner@ != runner);
            }
        }
    }
}

/// Games are listed in the order in which they were read.
pub proof fn games_keep_their_order(games: Seq<HeroicGame>, manifests: Seq<HeroicManifest>, game: HeroicGame)
    ensures
        games.push(game).filter(launchable(manifests)) == games.filter(launchable(manifests)) || games.push(
            game,
        ).filter(launchable(manifests)) == games.filter(launchable(manifests)).push(game),
        Seq::<HeroicGame>::empty().filter(launchable(manifests)).len() == 0,
{
    reveal(Seq::filter);
    assert(games.push(game).drop_last() == games);
}

/// What is listed for a game has its title, and its name and its store where
/// the command has places for them; the rest is as set up.
pub proof fn listed_app_is_the_game(
    app: ApplicationConfig,
    config: HeroicApplicationScannerConfig,
    config_dir: Seq<char>,
    files: HeroicFiles,
    game: HeroicGame,
    i: int,
)
    requires
        is_app_of(app, config, config_dir, files, game),
        0 <= i < config.command@.len(),
    ensures
        app.title@ == game.title@,
        app.command@.len() == config.command@.len(),
        config.command@[i]@ == "{app_name}"@ && (forall|k: int|
            0 <= k <= game.app_name@.len() - 8 ==> #[trigger] game.app_name@.subrange(k, k + 8)
                != "{runner}"@) ==> app.command@[i]@ == game.app_name@,
        config.command@[i]@ == "{runner}"@ ==> app.command@[i]@ == match game.runner {
            Some(r) => r@,
            None => "sideload"@,
        },
        app.stdout == config.stdout,
        app.stderr == config.stderr,
        app.launch_timeout_secs == config.launch_timeout_secs,
        app.pre_command@.len() == config.pre_command@.len(),
        app.post_command@.len() == config.post_command@.len(),
        forall|k: int|
            0 <= k < app.pre_command@.len() ==> common::same_words(
                #[trigger] app.pre_command@[k]@,
                config.pre_command@[k]@,
            ),
        forall|k: int|
            0 <= k < app.post_command@.len() ==> common::same_words(
                #[trigger] app.post_command@[k]@,
                config.post_command@[k]@,
            ),
{
    reveal_strlit("{app_name}");
    reveal_strlit("{runner}");
    assert("{app_name}"@.len() == 10);
    assert("{runner}"@.len() == 8);
    let words = text::texts(config.command@);
    let once = common::filled(words, "{app_name}"@, game.app_name@);
    let twice = common::filled(once, "{runner}"@, runner_of(game));
    assert(words[i] == config.command@[i]@);
    common::placeholders_are_filled_in(words, "{app_name}"@, game.app_name@, i, Seq::empty());
    common::placeholders_are_filled_in(once, "{runner}"@, runner_of(game), i, Seq::empty());
    common::found_is_as_set_up(
        app,
        config.settings_spec(),
        game.title@,
        twice,
        boxart_of(config_dir, game, text::texts(files.icons@), text::texts(files.images@)),
    );
}

/// A library cache is known by the end of its name, and every one among the
/// files is taken.
pub proof fn every_library_is_found(names: Seq<Seq<char>>, name: Seq<char>)
    ensures
        library_names(names).contains(name) <==> names.contains(name) && name.len() >= 13 && name.subrange(
            name.len() - 13,
            name.len() as int,
        ) == "_library.json"@,
    decreases names.len(),
{
    reveal_strlit("_library.json");
    assert("_library.json"@.len() == 13);
    if name.len() >= 13 {
        assert(name.skip(name.len() - 13) == name.subrange(name.len() - 13, name.len() as int));
    }
    if names.len() > 0 {
        let rest = names.drop_last();
        every_library_is_found(rest, name);
        let all = library_names(names);
        let before = library_names(rest);
        if rest.contains(name) {
            let k = choose|k: int| 0 <= k < rest.len() && rest[k] == name;
            assert(names[k] == name);
        }
        if names.contains(name) {
            let k = choose|k: int| 0 <= k < names.len() && names[k] == name;
            if k < rest.len() {
                assert(rest[k] == name);
            }
        }
        assert(names[names.len() - 1] == names.last());
        if before.contains(name) {
            let k = choose|k: int| 0 <= k < before.len() && before[k] == name;
            assert(all[k] == name);
        }
        if is_library(names.last()) {
            assert(all[all.len() - 1] == names.last());
        }
        if all.contains(name) {
            let k = choose|k: int| 0 <= k < all.len() && all[k] == name;
            if k < before.len() {
                assert(before[k] == name);
            }
        }
    }
}

/// The image that is found is the first of the names, in their order, that is
/// among the images; none is found exactly where none of them is there.
pub proof fn first_name_with_an_image(names: Seq<Seq<char>>, images: Seq<Seq<char>>)
    ensures
        match first_image(names, images) {
            Some(n) => exists|i: int|
                0 <= i < names.len() && #[trigger] names[i] == n && images.contains(n) && (forall|j: int|
                    0 <= j < i ==> !images.contains(#[trigger] names[j])),
            None => forall|j: int| 0 <= j < names.len() ==> !images.contains(#[trigger] names[j]),
        },
    decreases names.len(),
{
    if names.len() > 0 {
        let rest = names.drop_last();
        first_name_with_an_image(rest, images);
        let last = names.len() - 1;
        assert(forall|j: int| 0 <= j < last ==> rest[j] == names[j]);
        if first_image(rest, images) is Some {
            let n = first_image(rest, images)->0;
            let i = choose|i: int|
                0 <= i < rest.len() && #[trigger] rest[i] == n && images.contains(n) && (forall|j: int|
                    0 <= j < i ==> !images.contains(#[trigger] rest[j]));
            assert(names[i] == n);
            assert forall|j: int| 0 <= j < i implies !images.contains(#[trigger] names[j]) by {
                assert(rest[j] == names[j]);
            }
        } else {
            assert forall|j: int| 0 <= j < last implies !images.contains(#[trigger] names[j]) by {
                assert(rest[j] == names[j]);
            }
        }
    }
}

/// A name can stand in a file's name exactly if it is not empty and holds only
/// letters and digits of ASCII, hyphens and underscores.
pub proof fn safe_names_are_known(s: Seq<char>)
    ensures
        is_app_name(s) <==> s.len() > 0 && forall|i: int|
            0 <= i < s.len() ==> {
                ||| '0' <= #[trigger] s[i] <= '9'
                ||| 'a' <= s[i] <= 'z'
                ||| 'A' <= s[i] <= 'Z'
                ||| s[i] == '-'
                ||| s[i] == '_'
            },
{
    if is_app_name(s) {
        assert forall|i: int| 0 <= i < s.len() implies {
            ||| '0' <= #[trigger] s[i] <= '9'
            ||| 'a' <= s[i] <= 'z'
            ||| 'A' <= s[i] <= 'Z'
            ||| s[i] == '-'
            ||| s[i] == '_'
        } by {
            assert(is_name_char(s[i]));
        }
    }
}

/// The icon of a game comes before all its other images, where its name can
/// stand in a file's name; else the first of its images that is there.
pub proof fn icons_come_first(
    dir: Seq<char>,
    game: HeroicGame,
    icons: Seq<Seq<char>>,
    images: Seq<Seq<char>>,
)
    ensures
        ({
            let icon = game.app_name@ + ".jpg"@;
            let found = first_image(image_names(game), images);
            let art = boxart_of(dir, game, icons, images);
            &&& is_app_name(game.app_name@) && icons.contains(icon) ==> art == Some(
                common::path_below(common::path_below(dir, "icons"@), icon),
            )
            &&& !is_app_name(game.app_name@) || !icons.contains(icon) ==> {
                &&& found is None ==> art is None
                &&& found matches Some(n) ==> art == Some(
                    common::path_below(common::path_below(dir, "images-cache"@), n),
                )
            }
        }),
{
}

/// An image is looked for under three addresses, the largest first and the
/// plain one last, and portrait art before landscape art; an empty address is
/// none.
pub proof fn images_are_looked_for_in_order(game: HeroicGame, square: String, cover: String)
    ensures
        game.art_square == Some(square) && square@.len() > 0 ==> {
            let names = image_names(game);
            &&& names.len() >= 3
            &&& names[0] == digest::fingerprint_of(
                utf8::encode_utf8(square@ + "?h=800&resize=1&w=600"@),
            )
            &&& names[1] == digest::fingerprint_of(
                utf8::encode_utf8(square@ + "?h=400&resize=1&w=300"@),
            )
            &&& names[2] == digest::fingerprint_of(utf8::encode_utf8(square@))
        },
        game.art_cover == Some(cover) && cover@.len() > 0 ==> {
            let names = image_names(game);
            let last = names.len() - 1;
            &&& names.len() >= 3
            &&& names[last - 2] == digest::fingerprint_of(
                utf8::encode_utf8(cover@ + "?h=800&resize=1&w=600"@),
            )
            &&& names[last - 1] == digest::fingerprint_of(
                utf8::encode_utf8(cover@ + "?h=400&resize=1&w=300"@),
            )
            &&& names[last] == digest::fingerprint_of(utf8::encode_utf8(cover@))
        },
        image_names(game).len() == (if game.art_square is Some && game.art_square->0@.len() > 0 {
            3int
        } else {
            0
        }) + (if game.art_cover is Some && game.art_cover->0@.len() > 0 {
            3int
        } else {
            0
        }),
        game.runner is None ==> runner_of(game) == "sideload"@,
        game.runner matches Some(r) ==> runner_of(game) == r@,
{
}

/// The library caches of the stores come in the order of their names, each
/// below the directory of the caches; then comes the library of games that were
/// added by hand, exactly if it is there.
pub proof fn libraries_are_listed(dir: Seq<char>, names: Seq<Seq<char>>, i: int)
    ensures
        libraries_of(dir, None, false).len() == 0,
        libraries_of(dir, None, true) == seq![
            common::path_below(dir, "sideload_apps/library.json"@),
        ],
        libraries_of(dir, Some(names), true) == libraries_of(dir, Some(names), false).push(
            common::path_below(dir, "sideload_apps/library.json"@),
        ),
        libraries_of(dir, Some(names), false).len() == library_names(names).len(),
        0 <= i < library_names(names).len() ==> libraries_of(dir, Some(names), false)[i]
            == common::path_below(
            common::path_below(dir, "store_cache"@),
            common::sorted(library_names(names))[i],
        ),
{
    common::order_is_from_first_to_last(library_names(names), i);
}

} // verus!
