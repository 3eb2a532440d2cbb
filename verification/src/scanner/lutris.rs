//! Games of Lutris.
//!
//! Reading the database and the directory of cover art is left to the caller.
use vstd::prelude::*;

use crate::application::ApplicationConfig;
use crate::scanner::common;
use crate::scanner::common::Settings;
use crate::text;

verus! {

/// Where Lutris is found, and what is set on its games.
#[derive(Debug)]
pub struct LutrisApplicationScannerConfig {
    /// Path to the database.
    pub pga_db: String,
    /// The command to run.
    pub command: Vec<String>,
    /// Commands to run before it.
    pub pre_command: Vec<Vec<String>>,
    /// Commands to run after the session.
    pub post_command: Vec<Vec<String>>,
    /// Where its output goes.
    pub stdout: Option<String>,
    /// Where its errors go.
    pub stderr: Option<String>,
    /// Seconds that it has to stay up after it was launched.
    pub launch_timeout_secs: u64,
}

impl LutrisApplicationScannerConfig {
    /// What is set on every game.
    pub open spec fn settings_spec(&self) -> Settings<'_> {
        Settings {
            pre_command: &self.pre_command,
            post_command: &self.post_command,
            stdout: &self.stdout,
            stderr: &self.stderr,
            launch_timeout_secs: self.launch_timeout_secs,
        }
    }

    /// What is set on every game.
    fn settings(&self) -> (r: Settings<'_>)
        ensures
            r == self.settings_spec(),
    {
        Settings {
            pre_command: &self.pre_command,
            post_command: &self.post_command,
            stdout: &self.stdout,
            stderr: &self.stderr,
            launch_timeout_secs: self.launch_timeout_secs,
        }
    }
}

/// Where the database is by default, below the directory for data.
pub fn default_pga_db(data_dir: Option<&str>) -> (r: String)
    ensures
        r@ == common::path_below(
            common::path_below(
                match data_dir {
                    Some(d) => d@,
                    None => "."@,
                },
                "lutris"@,
            ),
            "pga.db"@,
        ),
{
    let data_dir: &str = match data_dir {
        Some(d) => d,
        None => ".",
    };
    let lutris = common::join_path(data_dir, "lutris");
    common::join_path(lutris.as_str(), "pga.db")
}

/// A game that is installed.
#[derive(Debug)]
pub struct LutrisGame {
    /// Its name.
    pub name: String,
    /// Its short name.
    pub slug: String,
}

/// A character of a short name.
pub open spec fn is_slug_char(c: char) -> bool {
    common::is_alphanumeric(c) || c == '-' || c == '_' || c == '.'
}

/// A short name that can stand in a command and in a file's name.
pub open spec fn is_slug(s: Seq<char>) -> bool {
    forall|i: int| 0 <= i < s.len() ==> is_slug_char(#[trigger] s[i])
}

/// A short name that can stand in a command; see [`is_slug`].
pub fn is_valid_slug(slug: &str) -> (r: bool)
    ensures
        r == is_slug(slug@),
{
    let chars = text::chars_of(slug);
    let mut i: usize = 0;
    while i < chars.len()
        invariant
            i <= chars@.len(),
            chars@ == slug@,
            forall|j: int| 0 <= j < i ==> is_slug_char(#[trigger] chars@[j]),
        decreases chars@.len() - i,
    {
        let c = chars[i];
        if !(common::is_ascii_alphanumeric(c) || c == '-' || c == '_' || c == '.') {
            assert(!is_slug_char(chars@[i as int]));
            return false;
        }
        i = i + 1;
    }
    true
}

/// The games that are listed: those with a valid short name.
pub open spec fn has_slug() -> spec_fn(LutrisGame) -> bool {
    |g: LutrisGame| is_slug(g.slug@)
}

/// The cover art of a game: the JPEG before the PNG. `coverart` are the names
/// of the files in the directory.
pub open spec fn cover_of(dir: Seq<char>, coverart: Seq<Seq<char>>, slug: Seq<char>) -> Option<Seq<char>> {
    if coverart.contains(slug + ".jpg"@) {
        Some(common::path_below(dir, slug + ".jpg"@))
    } else if coverart.contains(slug + ".png"@) {
        Some(common::path_below(dir, slug + ".png"@))
    } else {
        None
    }
}

/// The cover art of a game; see [`cover_of`].
fn find_cover(dir: &str, coverart: &Vec<String>, slug: &str) -> (r: Option<String>)
    ensures
        common::maybe(r) == cover_of(dir@, text::texts(coverart@), slug@),
{
    let name = text::joined(slug, ".jpg");
    if common::is_listed(coverart, name.as_str()) {
        return Some(common::join_path(dir, name.as_str()));
    }
    let name = text::joined(slug, ".png");
    if common::is_listed(coverart, name.as_str()) {
        return Some(common::join_path(dir, name.as_str()));
    }
    None
}

/// `app` is the application of `game`.
pub open spec fn is_app_of(
    app: ApplicationConfig,
    config: LutrisApplicationScannerConfig,
    coverart_dir: Seq<char>,
    coverart: Seq<Seq<char>>,
    game: LutrisGame,
) -> bool {
    common::is_found(
        app,
        config.settings_spec(),
        game.name@,
        common::filled(text::texts(config.command@), "{slug}"@, game.slug@),
        cover_of(coverart_dir, coverart, game.slug@),
    )
}

/// The applications of the games that are installed, in their order; those
/// with an invalid short name are left out.
pub fn scan_lutris_applications(
    config: &LutrisApplicationScannerConfig,
    games: &Vec<LutrisGame>,
    coverart_dir: &str,
    coverart: &Vec<String>,
) -> (r: Vec<ApplicationConfig>)
    ensures
        r@.len() == games@.filter(has_slug()).len(),
        forall|i: int|
            #![trigger r@[i]]
            0 <= i < r@.len() ==> is_app_of(
                r@[i],
                *config,
                coverart_dir@,
                text::texts(coverart@),
                games@.filter(has_slug())[i],
            ),
{
    let settings = config.settings();
    let mut r: Vec<ApplicationConfig> = Vec::new();
    let mut i: usize = 0;
    proof {
        reveal(Seq::filter);
        reveal_strlit("{slug}");
    }
    while i < games.len()
        invariant
            i <= games@.len(),
            settings == config.settings_spec(),
            "{slug}"@.len() > 0,
            r@.len() == games@.take(i as int).filter(has_slug()).len(),
            forall|k: int|
                #![trigger r@[k]]
                0 <= k < r@.len() ==> is_app_of(
                    r@[k],
                    *config,
                    coverart_dir@,
                    text::texts(coverart@),
                    games@.take(i as int).filter(has_slug())[k],
                ),
        decreases games@.len() - i,
    {
        let game = &games[i];
        proof {
            reveal(Seq::filter);
            assert(games@.take(i + 1).drop_last() == games@.take(i as int));
        }
        if is_valid_slug(game.slug.as_str()) {
            let boxart = find_cover(coverart_dir, coverart, game.slug.as_str());
            let command = common::fill(&config.command, "{slug}", game.slug.as_str());
            let ghost before = r@;
            r.push(common::found_application(&settings, game.name.as_str(), command, boxart));
            proof {
                let kept = games@.take(i as int).filter(has_slug());
                let now = games@.take(i + 1).filter(has_slug());
                assert(now == kept.push(*game));
                assert forall|k: int| #![trigger r@[k]] 0 <= k < r@.len() implies is_app_of(
                    r@[k],
                    *config,
                    coverart_dir@,
                    text::texts(coverart@),
                    now[k],
                ) by {
                    if k < before.len() {
                        assert(r@[k] == before[k]);
                        assert(now[k] == kept[k]);
                    }
                }
            }
        }
        i = i + 1;
    }
    assert(games@.take(games@.len() as int) == games@);
    r
}

/// The name of cover art never leads out of its directory: it holds no slash.
pub proof fn cover_stays_in_directory(slug: Seq<char>)
    requires
        is_slug(slug),
    ensures
        !(slug + ".jpg"@).contains('/'),
        !(slug + ".png"@).contains('/'),
{
    reveal_strlit(".jpg");
    reveal_strlit(".png");
    let a = slug + ".jpg"@;
    let b = slug + ".png"@;
    assert forall|i: int| 0 <= i < a.len() implies a[i] != '/' by {
        if i < slug.len() {
            assert(is_slug_char(slug[i]));
        }
    }
    assert forall|i: int| 0 <= i < b.len() implies b[i] != '/' by {
        if i < slug.len() {
            assert(is_slug_char(slug[i]));
        }
    }
}

/// A game of Lutris is listed exactly if every character of its short name is
/// a letter or digit of ASCII, a dash, an underscore or a dot.
pub proof fn every_game_with_a_slug_is_listed(games: Seq<LutrisGame>, i: int)
    requires
        0 <= i < games.len(),
    ensures
        games.filter(has_slug()).contains(games[i]) <==> forall|k: int|
            0 <= k < games[i].slug@.len() ==> ({
                let c = #[trigger] games[i].slug@[k];
                '0' <= c <= '9' || 'a' <= c <= 'z' || 'A' <= c <= 'Z' || c == '-' || c == '_' || c == '.'
            }),
{
    broadcast use vstd::seq_lib::group_filter_ensures;

    let keep = has_slug();
    let slug = games[i].slug@;
    if is_slug(slug) {
        assert forall|k: int| 0 <= k < slug.len() implies ({
            let c = #[trigger] slug[k];
            '0' <= c <= '9' || 'a' <= c <= 'z' || 'A' <= c <= 'Z' || c == '-' || c == '_' || c == '.'
        }) by {
            assert(is_slug_char(slug[k]));
        }
        games.lemma_filter_contains(keep, i);
    } else {
        let k = choose|k: int| 0 <= k < slug.len() && !is_slug_char(#[trigger] slug[k]);
        let c = slug[k];
        assert(!('0' <= c <= '9' || 'a' <= c <= 'z' || 'A' <= c <= 'Z' || c == '-' || c == '_' || c
            == '.'));
    }
    if games.filter(keep).contains(games[i]) {
        let listed = games.filter(keep);
        let k = choose|k: int| 0 <= k < listed.len() && listed[k] == games[i];
        assert(keep(listed[k]));
    }
}

/// Games are listed in the order in which they were read.
pub proof fn games_keep_their_order(games: Seq<LutrisGame>, game: LutrisGame)
    ensures
        games.push(game).filter(has_slug()) == games.filter(has_slug()) || games.push(game).filter(has_slug())
            == games.filter(has_slug()).push(game),
        Seq::<LutrisGame>::empty().filter(has_slug()).len() == 0,
{
    reveal(Seq::filter);
    assert(games.push(game).drop_last() == games);
}

/// What is listed for a game has its name, and its short name where the
/// command has a place for it; the rest is as set up.
pub proof fn listed_app_is_the_game(
    app: ApplicationConfig,
    config: LutrisApplicationScannerConfig,
    coverart_dir: Seq<char>,
    coverart: Seq<Seq<char>>,
    game: LutrisGame,
    i: int,
)
    requires
        is_app_of(app, config, coverart_dir, coverart, game),
        0 <= i < config.command@.len(),
    ensures
        app.title@ == game.name@,
        app.command@.len() == config.command@.len(),
        config.command@[i]@ == "{slug}"@ ==> app.command@[i]@ == game.slug@,
        (forall|k: int|
            0 <= k <= config.command@[i]@.len() - 6 ==> #[trigger] config.command@[i]@.subrange(k, k + 6)
                != "{slug}"@) ==> app.command@[i]@ == config.command@[i]@,
        app.stdout == config.stdout,
        app.stderr == config.stderr,
        app.launch_timeout_secs == config.launch_timeout_secs,
        app.pre_command@.len() == config.pre_command@.len(),
        app.post_command@.len() == config.post_command@.len(),
        forall|k: int|
            0 <= k < app.pre_command@.len() ==> common::same_words(
                #[trigger] app.pre_command@[k]@,
                config.pre_command@[k]@,
            ),
        forall|k: int|
            0 <= k < app.post_command@.len() ==> common::same_words(
                #[trigger] app.post_command@[k]@,
                config.post_command@[k]@,
            ),
{
    reveal_strlit("{slug}");
    assert("{slug}"@.len() == 6);
    let words = text::texts(config.command@);
    assert(words[i] == config.command@[i]@);
    common::placeholders_are_filled_in(words, "{slug}"@, game.slug@, i, Seq::empty());
    common::found_is_as_set_up(
        app,
        config.settings_spec(),
        game.name@,
        common::filled(words, "{slug}"@, game.slug@),
        cover_of(coverart_dir, coverart, game.slug@),
    );
}

/// A game has cover art exactly where there is a file of its short name, as a
/// JPEG or as a PNG; the JPEG comes first.
pub proof fn cover_is_of_the_game(dir: Seq<char>, coverart: Seq<Seq<char>>, slug: Seq<char>)
    ensures
        cover_of(dir, coverart, slug) is Some <==> coverart.contains(slug + ".jpg"@) || coverart.contains(
            slug + ".png"@,
        ),
        coverart.contains(slug + ".jpg"@) ==> cover_of(dir, coverart, slug) == Some(
            common::path_below(dir, slug + ".jpg"@),
        ),
        !coverart.contains(slug + ".jpg"@) && coverart.contains(slug + ".png"@) ==> cover_of(
            dir,
            coverart,
            slug,
        ) == Some(common::path_below(dir, slug + ".png"@)),
{
}

} // verus!
