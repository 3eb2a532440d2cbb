//! Games of Steam.
//!
//! Reading Steam's libraries and searching its cache is left to the caller.
use vstd::prelude::*;

use crate::application::ApplicationConfig;
use crate::scanner::common;
use crate::scanner::common::Settings;
use crate::text;

verus! {

/// Where Steam is found, and what is set on its games.
#[derive(Debug)]
pub struct SteamApplicationScannerConfig {
    /// Path to the library.
    pub library: String,
    /// The command to run.
    pub command: Vec<String>,
    /// Commands to run before it.
    pub pre_command: Vec<Vec<String>>,
    /// Commands to run after the session.
    pub post_command: Vec<Vec<String>>,
    /// Where its output goes.
    pub stdout: Option<String>,
    /// Where its errors go.
    pub stderr: Option<String>,
    /// Seconds that it has to stay up after it was launched.
    pub launch_timeout_secs: u64,
}

impl SteamApplicationScannerConfig {
    /// What is set on every game.
    pub open spec fn settings_spec(&self) -> Settings<'_> {
        Settings {
            pre_command: &self.pre_command,
            post_command: &self.post_command,
            stdout: &self.stdout,
            stderr: &self.stderr,
            launch_timeout_secs: self.launch_timeout_secs,
        }
    }

    /// What is set on every game.
    fn settings(&self) -> (r: Settings<'_>)
        ensures
            r == self.settings_spec(),
    {
        Settings {
            pre_command: &self.pre_command,
            post_command: &self.post_command,
            stdout: &self.stdout,
            stderr: &self.stderr,
            launch_timeout_secs: self.launch_timeout_secs,
        }
    }
}

/// An application in Steam's libraries.
#[derive(Debug)]
pub struct SteamApp {
    /// Its number.
    pub app_id: u32,
    /// Its name, where it has one.
    pub name: Option<String>,
    /// Its box art, where some was found.
    pub boxart: Option<String>,
}

/// The names of tools that are no games begin like this.
pub open spec fn is_tool(title: Seq<char>) -> bool {
    text::has_prefix(title, "Proton"@) || text::has_prefix(title, "Steam Linux Runtime"@)
        || text::has_prefix(title, "Steamworks Common Redistributables"@)
}

/// Whether `s` begins with `prefix`.
fn begins_with(s: &str, prefix: &str) -> (r: bool)
    ensures
        r == text::has_prefix(s@, prefix@),
{
    let s = text::chars_of(s);
    let prefix = text::chars_of(prefix);
    text::starts_with(s.as_slice(), prefix.as_slice())
}

/// Whether it is a tool; see [`is_tool`].
fn names_tool(title: &str) -> (r: bool)
    ensures
        r == is_tool(title@),
{
    begins_with(title, "Proton") || begins_with(title, "Steam Linux Runtime") || begins_with(
        title,
        "Steamworks Common Redistributables",
    )
}

/// The applications that are listed: those that have a name and are no tools.
pub open spec fn is_game() -> spec_fn(SteamApp) -> bool {
    |a: SteamApp| a.name is Some && !is_tool(a.name->0@)
}

/// `app` is the application of `game`.
pub open spec fn is_app_of(
    app: ApplicationConfig,
    config: SteamApplicationScannerConfig,
    game: SteamApp,
) -> bool {
    common::is_found(
        app,
        config.settings_spec(),
        game.name->0@,
        common::filled(
            text::texts(config.command@),
            "{game_id}"@,
            text::decimal(game.app_id as nat),
        ),
        common::maybe(game.boxart),
    )
}

/// The applications of the games in Steam's libraries, in their order; those
/// without a name and tools are left out.
pub fn scan_steam_applications(config: &SteamApplicationScannerConfig, apps: &Vec<SteamApp>) -> (r: Vec<
    ApplicationConfig,
>)
    ensures
        r@.len() == apps@.filter(is_game()).len(),
        forall|i: int|
            #![trigger r@[i]]
            0 <= i < r@.len() ==> is_app_of(r@[i], *config, apps@.filter(is_game())[i]),
{
    let settings = config.settings();
    let mut r: Vec<ApplicationConfig> = Vec::new();
    let mut i: usize = 0;
    proof {
        reveal(Seq::filter);
        reveal_strlit("{game_id}");
    }
    while i < apps.len()
        invariant
            i <= apps@.len(),
            settings == config.settings_spec(),
            "{game_id}"@.len() > 0,
            r@.len() == apps@.take(i as int).filter(is_game()).len(),
            forall|k: int|
                #![trigger r@[k]]
                0 <= k < r@.len() ==> is_app_of(
                    r@[k],
                    *config,
                    apps@.take(i as int).filter(is_game())[k],
                ),
        decreases apps@.len() - i,
    {
        let app = &apps[i];
        proof {
            reveal(Seq::filter);
            assert(apps@.take(i + 1).drop_last() == apps@.take(i as int));
        }
        if let Some(name) = &app.name {
            if !names_tool(name.as_str()) {
                let id = text::decimal_string(app.app_id as u64);
                let command = common::fill(&config.command, "{game_id}", id.as_str());
                let boxart = match &app.boxart {
                    Some(b) => Some(b.clone()),
                    None => None,
                };
                let ghost before = r@;
                r.push(common::found_application(&settings, name.as_str(), command, boxart));
                proof {
                    let kept = apps@.take(i as int).filter(is_game());
                    let now = apps@.take(i + 1).filter(is_game());
                    assert(now == kept.push(*app));
                    assert forall|k: int| #![trigger r@[k]] 0 <= k < r@.len() implies is_app_of(
                        r@[k],
                        *config,
                        now[k],
                    ) by {
                        if k < before.len() {
                            assert(r@[k] == before[k]);
                            assert(now[k] == kept[k]);
                        }
                    }
                }
            }
        }
        i = i + 1;
    }
    assert(apps@.take(apps@.len() as int) == apps@);
    r
}

/// The directory in which box art of an application is searched.
pub fn game_dir(config: &SteamApplicationScannerConfig, app_id: u32) -> (r: String)
    ensures
        r@ == common::path_below(
            common::path_below(config.library@, "appcache/librarycache"@),
            text::decimal(app_id as nat),
        ),
{
    let id = text::decimal_string(app_id as u64);
    let cache = common::join_path(config.library.as_str(), "appcache/librarycache");
    common::join_path(cache.as_str(), id.as_str())
}

/// A file that was met below a directory.
#[derive(Debug)]
pub struct FoundFile {
    /// Its name.
    pub name: String,
    /// Its path.
    pub path: String,
}

/// The path of the first file with this name.
pub open spec fn path_of(files: Seq<FoundFile>, name: Seq<char>) -> Option<Seq<char>>
    decreases files.len(),
{
    if files.len() == 0 {
        None
    } else {
        match path_of(files.drop_last(), name) {
            Some(p) => Some(p),
            None => if files.last().name@ == name {
                Some(files.last().path@)
            } else {
                None
            },
        }
    }
}

/// The path of the first file with this name; see [`path_of`].
pub fn search_file(files: &Vec<FoundFile>, name: &str) -> (r: Option<String>)
    ensures
        common::maybe(r) == path_of(files@, name@),
{
    let mut r: Option<String> = None;
    let mut i: usize = 0;
    while i < files.len()
        invariant
            i <= files@.len(),
            common::maybe(r) == path_of(files@.take(i as int), name@),
        decreases files@.len() - i,
    {
        assert(files@.take(i + 1).drop_last() == files@.take(i as int));
        if let None = r {
            if text::same_text(files[i].name.as_str(), name) {
                r = Some(files[i].path.clone());
            }
        }
        i = i + 1;
    }
    assert(files@.take(files@.len() as int) == files@);
    r
}

/// The box art among the files that were met: the portrait before the capsule.
pub fn find_boxart(files: &Vec<FoundFile>) -> (r: Option<String>)
    ensures
        common::maybe(r) == match path_of(files@, "library_600x900.jpg"@) {
            Some(p) => Some(p),
            None => path_of(files@, "library_capsule.jpg"@),
        },
{
    match search_file(files, "library_600x900.jpg") {
        Some(p) => Some(p),
        None => search_file(files, "library_capsule.jpg"),
    }
}

/// Everything that is listed has a name that is not that of a tool, and is
/// one of the applications.
pub proof fn listed_apps_are_games(apps: Seq<SteamApp>, i: int)
    requires
        0 <= i < apps.filter(is_game()).len(),
    ensures
        apps.filter(is_game())[i].name is Some,
        !is_tool(apps.filter(is_game())[i].name->0@),
        apps.contains(apps.filter(is_game())[i]),
{
    broadcast use vstd::seq_lib::group_filter_ensures;

    let keep = is_game();
    let listed = apps.filter(keep);
    assert(keep(listed[i]));
    assert(listed.contains(listed[i]));
    apps.lemma_filter_contains_rev(keep, listed[i]);
}

/// An application of Steam's libraries is listed exactly if it has a name and
/// the name begins with none of the names of tools, `Proton`, `Steam Linux
/// Runtime` and `Steamworks Common Redistributables`.
pub proof fn every_game_is_listed(apps: Seq<SteamApp>, i: int)
    requires
        0 <= i < apps.len(),
    ensures
        apps.filter(is_game()).contains(apps[i]) <==> (apps[i].name matches Some(name) && !common::begins(
            name@,
            "Proton"@,
        ) && !common::begins(name@, "Steam Linux Runtime"@) && !common::begins(
            name@,
            "Steamworks Common Redistributables"@,
        )),
{
    broadcast use vstd::seq_lib::group_filter_ensures;

    let keep = is_game();
    if let Some(name) = apps[i].name {
        prefix_by_character(name@, "Proton"@);
        prefix_by_character(name@, "Steam Linux Runtime"@);
        prefix_by_character(name@, "Steamworks Common Redistributables"@);
    }
    assert(apps.contains(apps[i]));
    if keep(apps[i]) {
        apps.lemma_filter_contains(keep, i);
    }
    if apps.filter(keep).contains(apps[i]) {
        let listed = apps.filter(keep);
        let k = choose|k: int| 0 <= k < listed.len() && listed[k] == apps[i];
        assert(keep(listed[k]));
    }
}

/// A prefix is a beginning, character by character.
proof fn prefix_by_character(s: Seq<char>, prefix: Seq<char>)
    ensures
        text::has_prefix(s, prefix) == common::begins(s, prefix),
{
    if common::begins(s, prefix) {
        assert(s.take(prefix.len() as int) =~= prefix);
    }
    if text::has_prefix(s, prefix) {
        assert forall|i: int| 0 <= i < prefix.len() implies #[trigger] s[i] == prefix[i] by {
            assert(s.take(prefix.len() as int)[i] == s[i]);
        }
    }
}

/// Games are listed in the order of the libraries: one more at the end is
/// listed behind those before it, or not at all.
pub proof fn games_keep_their_order(apps: Seq<SteamApp>, app: SteamApp)
    ensures
        apps.push(app).filter(is_game()) == apps.filter(is_game()) || apps.push(app).filter(is_game())
            == apps.filter(is_game()).push(app),
        Seq::<SteamApp>::empty().filter(is_game()).len() == 0,
{
    reveal(Seq::filter);
    assert(apps.push(app).drop_last() == apps);
}

/// What is listed for a game has its name, its box art, and its number where
/// the command has a place for it; the rest is as set up.
pub proof fn listed_app_is_the_game(
    app: ApplicationConfig,
    config: SteamApplicationScannerConfig,
    game: SteamApp,
    i: int,
)
    requires
        is_app_of(app, config, game),
        0 <= i < config.command@.len(),
    ensures
        app.title@ == game.name->0@,
        app.command@.len() == config.command@.len(),
        config.command@[i]@ == "{game_id}"@ ==> app.command@[i]@ == text::decimal(game.app_id as nat),
        (forall|k: int|
            0 <= k <= config.command@[i]@.len() - 9 ==> #[trigger] config.command@[i]@.subrange(k, k + 9)
                != "{game_id}"@) ==> app.command@[i]@ == config.command@[i]@,
        (app.boxart is Some) == (game.boxart is Some),
        app.boxart matches Some(b) ==> b@ == game.boxart->0@,
        app.stdout == config.stdout,
        app.stderr == config.stderr,
        app.launch_timeout_secs == config.launch_timeout_secs,
        app.pre_command@.len() == config.pre_command@.len(),
        app.post_command@.len() == config.post_command@.len(),
        forall|k: int|
            0 <= k < app.pre_command@.len() ==> common::same_words(
                #[trigger] app.pre_command@[k]@,
                config.pre_command@[k]@,
            ),
        forall|k: int|
            0 <= k < app.post_command@.len() ==> common::same_words(
                #[trigger] app.post_command@[k]@,
                config.post_command@[k]@,
            ),
{
    reveal_strlit("{game_id}");
    assert("{game_id}"@.len() == 9);
    let words = text::texts(config.command@);
    let id = text::decimal(game.app_id as nat);
    let command = common::filled(words, "{game_id}"@, id);
    assert(words[i] == config.command@[i]@);
    common::placeholders_are_filled_in(words, "{game_id}"@, id, i, Seq::empty());
    common::found_is_as_set_up(
        app,
        config.settings_spec(),
        game.name->0@,
        command,
        common::maybe(game.boxart),
    );
}

/// The file that is found has the name, and no file before it has.
pub proof fn first_file_of_the_name(files: Seq<FoundFile>, name: Seq<char>)
    ensures
        match path_of(files, name) {
            Some(path) => exists|i: int|
                0 <= i < files.len() && (#[trigger] files[i]).name@ == name && files[i].path@ == path && (
                forall|j: int| 0 <= j < i ==> (#[trigger] files[j]).name@ != name),
            None => forall|j: int| 0 <= j < files.len() ==> (#[trigger] files[j]).name@ != name,
        },
    decreases files.len(),
{
    if files.len() > 0 {
        let rest = files.drop_last();
        first_file_of_the_name(rest, name);
        let last = files.len() - 1;
        assert(forall|j: int| 0 <= j < last ==> rest[j] == files[j]);
        if path_of(rest, name) is Some {
            let path = path_of(rest, name)->0;
            let i = choose|i: int|
                0 <= i < rest.len() && (#[trigger] rest[i]).name@ == name && rest[i].path@ == path && (
                forall|j: int| 0 <= j < i ==> (#[trigger] rest[j]).name@ != name);
            assert(files[i] == rest[i]);
            assert forall|j: int| 0 <= j < i implies (#[trigger] files[j]).name@ != name by {
                assert(rest[j].name@ != name);
            }
        } else {
            assert forall|j: int| 0 <= j < last implies (#[trigger] files[j]).name@ != name by {
                assert(rest[j].name@ != name);
            }
            if files[last].name@ == name {
                assert(files[last].path@ == path_of(files, name)->0);
            }
        }
    }
}

} // verus!
