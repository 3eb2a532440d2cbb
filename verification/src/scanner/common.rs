//! What all scanners do: paths, commands with placeholders, and the
//! application that comes of them.
use vstd::prelude::*;

use crate::application::ApplicationConfig;
use crate::markup;
use crate::text;

verus! {

/// `name` below `dir`: with a slash between them unless `dir` is empty or ends
/// in one. A name that begins with a slash stands alone.
pub open spec fn path_below(dir: Seq<char>, name: Seq<char>) -> Seq<char> {
    if name.len() > 0 && name[0] == '/' {
        name
    } else if dir.len() == 0 || dir.last() == '/' {
        dir + name
    } else {
        dir + "/"@ + name
    }
}

/// `name` below `dir`; see [`path_below`].
pub fn join_path(dir: &str, name: &str) -> (r: String)
    ensures
        r@ == path_below(dir@, name@),
{
    let name_chars = text::chars_of(name);
    if name_chars.len() > 0 && name_chars[0] == '/' {
        return name.to_owned();
    }
    let dir_chars = text::chars_of(dir);
    if dir_chars.len() == 0 || dir_chars[dir_chars.len() - 1] == '/' {
        return text::joined(dir, name);
    }
    let mut r = text::joined(dir, "/");
    r.append(name);
    r
}

/// Whether `name` is one of `names`.
pub fn is_listed(names: &Vec<String>, name: &str) -> (r: bool)
    ensures
        r == text::texts(names@).contains(name@),
{
    let ghost all = text::texts(names@);
    let mut i: usize = 0;
    while i < names.len()
        invariant
            i <= names@.len(),
            all == text::texts(names@),
            forall|j: int| #![trigger all[j]] 0 <= j < i ==> all[j] != name@,
        decreases names@.len() - i,
    {
        assert(all[i as int] == names@[i as int]@);
        if text::same_text(names[i].as_str(), name) {
            return true;
        }
        i = i + 1;
    }
    false
}

/// `s` with every `pattern` replaced.
pub fn replace_in(s: &str, pattern: &str, with: &str) -> (r: String)
    requires
        pattern@.len() > 0,
    ensures
        r@ == markup::replaced(s@, pattern@, with@),
{
    let s = text::chars_of(s);
    let pattern = text::chars_of(pattern);
    let with = text::chars_of(with);
    let r = markup::replace_all(s.as_slice(), pattern.as_slice(), with.as_slice());
    text::string_of(r.as_slice())
}

/// Every word with the placeholder filled in.
pub open spec fn filled(words: Seq<Seq<char>>, placeholder: Seq<char>, with: Seq<char>) -> Seq<Seq<char>> {
    words.map_values(|w: Seq<char>| markup::replaced(w, placeholder, with))
}

/// Every word with the placeholder filled in; see [`filled`].
pub fn fill(words: &Vec<String>, placeholder: &str, with: &str) -> (r: Vec<String>)
    requires
        placeholder@.len() > 0,
    ensures
        text::texts(r@) == filled(text::texts(words@), placeholder@, with@),
{
    let mut r: Vec<String> = Vec::new();
    let mut i: usize = 0;
    while i < words.len()
        invariant
            i <= words@.len(),
            placeholder@.len() > 0,
            text::texts(r@) == filled(text::texts(words@.take(i as int)), placeholder@, with@),
        decreases words@.len() - i,
    {
        let word = replace_in(words[i].as_str(), placeholder, with);
        let ghost before = text::texts(r@);
        r.push(word);
        i = i + 1;
        proof {
            assert(text::texts(r@) == before.push(word@));
            assert(filled(text::texts(words@.take(i as int)), placeholder@, with@) == before.push(
                word@,
            ));
        }
    }
    assert(words@.take(words@.len() as int) == words@);
    r
}

/// The words of some commands.
pub open spec fn command_texts(commands: Seq<Vec<String>>) -> Seq<Seq<Seq<char>>> {
    commands.map_values(|c: Vec<String>| text::texts(c@))
}

/// A copy of some commands.
pub fn copy_commands(commands: &Vec<Vec<String>>) -> (r: Vec<Vec<String>>)
    ensures
        command_texts(r@) == command_texts(commands@),
{
    let mut r: Vec<Vec<String>> = Vec::new();
    let mut i: usize = 0;
    while i < commands.len()
        invariant
            i <= commands@.len(),
            command_texts(r@) == command_texts(commands@.take(i as int)),
        decreases commands@.len() - i,
    {
        let ghost before = command_texts(r@);
        r.push(text::copied(&commands[i]));
        i = i + 1;
        assert(command_texts(r@) == before.push(text::texts(commands@[i - 1]@)));
        assert(command_texts(commands@.take(i as int)) == before.push(
            text::texts(commands@[i - 1]@),
        ));
    }
    assert(commands@.take(commands@.len() as int) == commands@);
    r
}

/// The characters of a text that may be missing.
pub open spec fn maybe(s: Option<String>) -> Option<Seq<char>> {
    match s {
        Some(s) => Some(s@),
        None => None,
    }
}

/// A copy of a text that may be missing.
fn copy_maybe(s: &Option<String>) -> (r: Option<String>)
    ensures
        r == *s,
{
    match s {
        Some(s) => Some(s.clone()),
        None => None,
    }
}

/// What a scanner sets on every application that it finds.
pub struct Settings<'a> {
    /// Commands to run before it.
    pub pre_command: &'a Vec<Vec<String>>,
    /// Commands to run after the session.
    pub post_command: &'a Vec<Vec<String>>,
    /// Where its output goes.
    pub stdout: &'a Option<String>,
    /// Where its errors go.
    pub stderr: &'a Option<String>,
    /// Seconds that it has to stay up after it was launched.
    pub launch_timeout_secs: u64,
}

/// `app` has this title, command and box art, and all else from `settings`.
pub open spec fn is_found(
    app: ApplicationConfig,
    settings: Settings,
    title: Seq<char>,
    command: Seq<Seq<char>>,
    boxart: Option<Seq<char>>,
) -> bool {
    &&& app.title@ == title
    &&& text::texts(app.command@) == command
    &&& maybe(app.boxart) == boxart
    &&& command_texts(app.pre_command@) == command_texts(settings.pre_command@)
    &&& command_texts(app.post_command@) == command_texts(settings.post_command@)
    &&& app.stdout == *settings.stdout
    &&& app.stderr == *settings.stderr
    &&& app.launch_timeout_secs == settings.launch_timeout_secs
}

/// An application that was found; see [`is_found`].
pub fn found_application(
    settings: &Settings,
    title: &str,
    command: Vec<String>,
    boxart: Option<String>,
) -> (r: ApplicationConfig)
    ensures
        is_found(r, *settings, title@, text::texts(command@), maybe(boxart)),
{
    ApplicationConfig {
        title: title.to_owned(),
        boxart,
        command,
        pre_command: copy_commands(settings.pre_command),
        post_command: copy_commands(settings.post_command),
        stdout: copy_maybe(settings.stdout),
        stderr: copy_maybe(settings.stderr),
        launch_timeout_secs: settings.launch_timeout_secs,
    }
}

/// `a` comes before `b`, or is the same: the first character that differs
/// decides, and what ends first comes first.
pub open spec fn comes_first(a: Seq<char>, b: Seq<char>) -> bool
    decreases a.len(),
{
    if a.len() == 0 {
        true
    } else if b.len() == 0 {
        false
    } else if a[0] != b[0] {
        a[0] < b[0]
    } else {
        comes_first(a.skip(1), b.skip(1))
    }
}

/// One of two texts comes first.
pub proof fn one_comes_first(a: Seq<char>, b: Seq<char>)
    ensures
        comes_first(a, b) || comes_first(b, a),
    decreases a.len(),
{
    if a.len() > 0 && b.len() > 0 && a[0] == b[0] {
        one_comes_first(a.skip(1), b.skip(1));
    }
}

/// What comes first before what comes first comes first.
pub proof fn order_carries_over(a: Seq<char>, b: Seq<char>, c: Seq<char>)
    requires
        comes_first(a, b),
        comes_first(b, c),
    ensures
        comes_first(a, c),
    decreases a.len(),
{
    if a.len() > 0 && b.len() > 0 && c.len() > 0 && a[0] == b[0] && b[0] == c[0] {
        order_carries_over(a.skip(1), b.skip(1), c.skip(1));
    }
}

/// Whether `a` comes first; see [`comes_first`].
fn is_first(a: &Vec<char>, b: &Vec<char>) -> (r: bool)
    ensures
        r == comes_first(a@, b@),
{
    let mut i: usize = 0;
    assert(a@.skip(0) == a@ && b@.skip(0) == b@);
    while i < a.len() && i < b.len()
        invariant
            i <= a@.len(),
            i <= b@.len(),
            comes_first(a@, b@) == comes_first(a@.skip(i as int), b@.skip(i as int)),
        decreases a@.len() - i,
    {
        proof {
            assert(a@.skip(i as int).skip(1) == a@.skip(i + 1));
            assert(b@.skip(i as int).skip(1) == b@.skip(i + 1));
        }
        if a[i] != b[i] {
            return a[i] < b[i];
        }
        i = i + 1;
    }
    i >= a.len()
}

/// `t` put into its place among `s`, which is in order.
pub open spec fn inserted(s: Seq<Seq<char>>, t: Seq<char>) -> Seq<Seq<char>>
    decreases s.len(),
{
    if s.len() == 0 || comes_first(s.last(), t) {
        s.push(t)
    } else {
        inserted(s.drop_last(), t).push(s.last())
    }
}

/// `s` in order.
pub open spec fn sorted(s: Seq<Seq<char>>) -> Seq<Seq<char>>
    decreases s.len(),
{
    if s.len() == 0 {
        s
    } else {
        inserted(sorted(s.drop_last()), s.last())
    }
}

/// Every text of `s` comes before those behind it.
pub open spec fn in_order(s: Seq<Seq<char>>) -> bool {
    forall|i: int, j: int|
        #![trigger s[i], s[j]]
        0 <= i < j < s.len() ==> comes_first(s[i], s[j])
}

/// Putting in keeps the order, and adds what is put in and nothing else.
proof fn inserted_in_order(s: Seq<Seq<char>>, t: Seq<char>)
    requires
        in_order(s),
    ensures
        in_order(inserted(s, t)),
        inserted(s, t).to_multiset() == s.to_multiset().insert(t),
    decreases s.len(),
{
    broadcast use vstd::seq_lib::group_to_multiset_ensures;

    let r = inserted(s, t);
    if s.len() == 0 || comes_first(s.last(), t) {
        assert forall|i: int, j: int| #![trigger r[i], r[j]] 0 <= i < j < r.len() implies comes_first(
            r[i],
            r[j],
        ) by {
            if j == s.len() {
                if i < s.len() - 1 {
                    assert(comes_first(s[i], s[s.len() - 1]));
                    order_carries_over(s[i], s.last(), t);
                }
            } else {
                assert(comes_first(s[i], s[j]));
            }
        }
    } else {
        let rest = s.drop_last();
        let low = inserted(rest, t);
        assert forall|i: int, j: int| #![trigger rest[i], rest[j]] 0 <= i < j < rest.len() implies comes_first(
            rest[i],
            rest[j],
        ) by {
            assert(comes_first(s[i], s[j]));
        }
        inserted_in_order(rest, t);
        one_comes_first(s.last(), t);
        assert(s == rest.push(s.last()));
        assert(s.to_multiset() == rest.to_multiset().insert(s.last()));
        assert(r.to_multiset() =~= s.to_multiset().insert(t));
        assert forall|i: int, j: int| #![trigger r[i], r[j]] 0 <= i < j < r.len() implies comes_first(
            r[i],
            r[j],
        ) by {
            if j == low.len() {
                assert(low.contains(r[i]));
                assert(low.to_multiset().count(r[i]) > 0);
                if r[i] != t {
                    assert(rest.to_multiset().count(r[i]) > 0);
                    assert(rest.contains(r[i]));
                    let k = choose|k: int| 0 <= k < rest.len() && rest[k] == r[i];
                    assert(comes_first(s[k], s[s.len() - 1]));
                }
            } else {
                assert(comes_first(low[i], low[j]));
            }
        }
    }
}

/// What is sorted is in order, and holds the same texts.
pub proof fn sorted_is_in_order(s: Seq<Seq<char>>)
    ensures
        in_order(sorted(s)),
        sorted(s).to_multiset() == s.to_multiset(),
    decreases s.len(),
{
    broadcast use vstd::seq_lib::group_to_multiset_ensures;

    if s.len() > 0 {
        sorted_is_in_order(s.drop_last());
        inserted_in_order(sorted(s.drop_last()), s.last());
        assert(s == s.drop_last().push(s.last()));
    }
}

/// Puts `t` into its place; see [`inserted`].
fn insert_in_order(s: &mut Vec<Vec<char>>, t: Vec<char>)
    ensures
        text::views(final(s)@) == inserted(text::views(old(s)@), t@),
{
    let ghost before = text::views(s@);
    let mut n: usize = s.len();
    assert(before.take(n as int) == before);
    assert(before.skip(n as int) == Seq::<Seq<char>>::empty());
    assert(inserted(before, t@) == inserted(before.take(n as int), t@) + before.skip(n as int));
    while n > 0 && !is_first(&s[n - 1], &t)
        invariant
            n <= s@.len(),
            before == text::views(s@),
            inserted(before, t@) == inserted(before.take(n as int), t@) + before.skip(n as int),
        decreases n,
    {
        proof {
            let here = before.take(n as int);
            assert(here.last() == s@[n - 1]@);
            assert(here.drop_last() == before.take(n - 1));
            assert(inserted(here, t@) == inserted(before.take(n - 1), t@).push(here.last()));
            assert(inserted(here, t@) + before.skip(n as int) == inserted(before.take(n - 1), t@)
                + before.skip(n - 1));
        }
        n = n - 1;
    }
    proof {
        let here = before.take(n as int);
        assert(n > 0 ==> here.last() == s@[n - 1]@);
        assert(inserted(here, t@) == here.push(t@));
    }
    s.insert(n, t);
    assert(text::views(s@) == before.take(n as int).push(t@) + before.skip(n as int));
}

/// `names` in order; see [`sorted`].
pub fn sort_texts(names: &Vec<String>) -> (r: Vec<String>)
    ensures
        text::texts(r@) == sorted(text::texts(names@)),
{
    let ghost all = text::texts(names@);
    let mut chars: Vec<Vec<char>> = Vec::new();
    let mut i: usize = 0;
    assert(text::views(chars@) == sorted(all.take(0)));
    while i < names.len()
        invariant
            i <= names@.len(),
            all == text::texts(names@),
            text::views(chars@) == sorted(all.take(i as int)),
        decreases names@.len() - i,
    {
        proof {
            assert(all.take(i + 1).drop_last() == all.take(i as int));
            assert(all.take(i + 1).last() == names@[i as int]@);
        }
        insert_in_order(&mut chars, text::chars_of(names[i].as_str()));
        i = i + 1;
    }
    assert(all.take(all.len() as int) == all);
    let mut r: Vec<String> = Vec::new();
    let mut k: usize = 0;
    while k < chars.len()
        invariant
            k <= chars@.len(),
            text::texts(r@) == text::views(chars@).take(k as int),
        decreases chars@.len() - k,
    {
        let ghost before = text::texts(r@);
        r.push(text::string_of(chars[k].as_slice()));
        k = k + 1;
        assert(text::texts(r@) == before.push(chars@[k - 1]@));
    }
    assert(text::views(chars@).take(chars@.len() as int) == text::views(chars@));
    r
}

/// A letter or digit of ASCII.
pub open spec fn is_alphanumeric(c: char) -> bool {
    '0' <= c <= '9' || 'a' <= c <= 'z' || 'A' <= c <= 'Z'
}

/// A letter or digit of ASCII; see [`is_alphanumeric`].
pub fn is_ascii_alphanumeric(c: char) -> (r: bool)
    ensures
        r == is_alphanumeric(c),
{
    (c >= '0' && c <= '9') || (c >= 'a' && c <= 'z') || (c >= 'A' && c <= 'Z')
}

/// `title` begins with `beginning`, character by character.
pub open spec fn begins(title: Seq<char>, beginning: Seq<char>) -> bool {
    beginning.len() <= title.len() && forall|i: int|
        0 <= i < beginning.len() ==> #[trigger] title[i] == beginning[i]
}

/// An application that was found is what was found: it has the title and the
/// box art, its command is as many words as the command set up, and all else
/// is as set up.
pub proof fn found_is_as_set_up(
    app: ApplicationConfig,
    settings: Settings,
    title: Seq<char>,
    command: Seq<Seq<char>>,
    boxart: Option<Seq<char>>,
)
    requires
        is_found(app, settings, title, command, boxart),
    ensures
        app.title@ == title,
        app.command@.len() == command.len(),
        forall|i: int| 0 <= i < command.len() ==> (#[trigger] app.command@[i])@ == command[i],
        (app.boxart is Some) == (boxart is Some),
        app.boxart matches Some(b) ==> b@ == boxart->0,
        app.stdout == *settings.stdout,
        app.stderr == *settings.stderr,
        app.launch_timeout_secs == settings.launch_timeout_secs,
        app.pre_command@.len() == settings.pre_command@.len(),
        app.post_command@.len() == settings.post_command@.len(),
        forall|i: int|
            0 <= i < app.pre_command@.len() ==> same_words(
                #[trigger] app.pre_command@[i]@,
                settings.pre_command@[i]@,
            ),
        forall|i: int|
            0 <= i < app.post_command@.len() ==> same_words(
                #[trigger] app.post_command@[i]@,
                settings.post_command@[i]@,
            ),
{
    assert forall|i: int| 0 <= i < command.len() implies (#[trigger] app.command@[i])@ == command[i] by {
        assert(text::texts(app.command@)[i] == app.command@[i]@);
    }
    assert(text::texts(app.command@).len() == app.command@.len());
    same_commands(app.pre_command@, settings.pre_command@);
    same_commands(app.post_command@, settings.post_command@);
}

/// The same words, one for one.
pub open spec fn same_words(a: Seq<String>, b: Seq<String>) -> bool {
    a.len() == b.len() && forall|j: int| 0 <= j < a.len() ==> (#[trigger] a[j])@ == b[j]@
}

/// Commands of the same words are the same, word for word.
proof fn same_commands(a: Seq<Vec<String>>, b: Seq<Vec<String>>)
    requires
        command_texts(a) == command_texts(b),
    ensures
        a.len() == b.len(),
        forall|i: int| 0 <= i < a.len() ==> same_words(#[trigger] a[i]@, b[i]@),
{
    assert(command_texts(a).len() == a.len() && command_texts(b).len() == b.len());
    assert forall|i: int| 0 <= i < a.len() implies same_words(#[trigger] a[i]@, b[i]@) by {
        assert(command_texts(a)[i] == text::texts(a[i]@));
        assert(command_texts(b)[i] == text::texts(b[i]@));
        assert(text::texts(a[i]@).len() == a[i]@.len());
        assert(text::texts(b[i]@).len() == b[i]@.len());
        assert forall|j: int| 0 <= j < a[i]@.len() implies (#[trigger] a[i]@[j])@ == b[i]@[j]@ by {
            assert(text::texts(a[i]@)[j] == a[i]@[j]@);
            assert(text::texts(b[i]@)[j] == b[i]@[j]@);
        }
    }
}

/// A placeholder is filled in word by word: words in which it does not stand
/// stay, and one that is the placeholder between two texts without it becomes
/// what is filled in between them.
pub proof fn placeholders_are_filled_in(
    words: Seq<Seq<char>>,
    placeholder: Seq<char>,
    with: Seq<char>,
    i: int,
    after: Seq<char>,
)
    requires
        placeholder.len() > 0,
        0 <= i < words.len(),
    ensures
        filled(words, placeholder, with).len() == words.len(),
        (forall|k: int|
            0 <= k <= words[i].len() - placeholder.len() ==> #[trigger] words[i].subrange(
                k,
                k + placeholder.len(),
            ) != placeholder) ==> filled(words, placeholder, with)[i] == words[i],
        words[i] == placeholder + after && (forall|k: int|
            0 <= k <= after.len() - placeholder.len() ==> #[trigger] after.subrange(k, k + placeholder.len())
                != placeholder) ==> filled(words, placeholder, with)[i] == with + after,
        words[i] == placeholder ==> filled(words, placeholder, with)[i] == with,
{
    let w = words[i];
    assert(filled(words, placeholder, with)[i] == markup::replaced(w, placeholder, with));
    if forall|k: int|
        0 <= k <= w.len() - placeholder.len() ==> #[trigger] w.subrange(k, k + placeholder.len())
            != placeholder {
        markup::nothing_to_replace(w, placeholder, with);
    }
    markup::replacing_goes_left_to_right(' ', after, placeholder, with);
    if forall|k: int|
        0 <= k <= after.len() - placeholder.len() ==> #[trigger] after.subrange(k, k + placeholder.len())
            != placeholder {
        markup::nothing_to_replace(after, placeholder, with);
    }
    let none = Seq::<char>::empty();
    markup::replacing_goes_left_to_right(' ', none, placeholder, with);
    assert(placeholder + none == placeholder);
    assert(with + none == with);
}

/// A path below a directory: the name behind the directory, with one slash
/// between them; a name that is a path from the root stands alone.
pub proof fn paths_are_below(dir: Seq<char>, name: Seq<char>)
    ensures
        name.len() > 0 && name[0] == '/' ==> path_below(dir, name) == name,
        !(name.len() > 0 && name[0] == '/') && dir.len() > 0 && dir.last() != '/' ==> path_below(dir, name)
            == dir.push('/') + name,
        !(name.len() > 0 && name[0] == '/') && dir.len() > 0 && dir.last() == '/' ==> path_below(dir, name)
            == dir + name,
        !(name.len() > 0 && name[0] == '/') && dir.len() == 0 ==> path_below(dir, name) == name,
{
    reveal_strlit("/");
    assert(dir + "/"@ + name == dir.push('/') + name);
    assert(Seq::<char>::empty() + name == name);
    if dir.len() == 0 {
        assert(dir + name == name);
    }
}

/// What comes first is decided by the first character that differs, and what
/// ends first comes first.
pub proof fn first_difference_decides(head: Seq<char>, a: Seq<char>, b: Seq<char>)
    ensures
        comes_first(head, head + b),
        a.len() > 0 && b.len() > 0 && a[0] < b[0] ==> comes_first(head + a, head + b) && !comes_first(
            head + b,
            head + a,
        ),
        b.len() > 0 ==> !comes_first(head + b, head),
    decreases head.len(),
{
    if head.len() == 0 {
        assert(head + a == a && head + b == b);
    } else {
        let rest = head.skip(1);
        first_difference_decides(rest, a, b);
        assert((head + a).skip(1) == rest + a);
        assert((head + b).skip(1) == rest + b);
        assert((head + a)[0] == head[0] && (head + b)[0] == head[0]);
    }
}

/// Texts in order are those given, as often as they were given, and each comes
/// before the next.
pub proof fn order_is_from_first_to_last(s: Seq<Seq<char>>, i: int)
    ensures
        sorted(s).to_multiset() == s.to_multiset(),
        sorted(s).len() == s.len(),
        0 <= i < s.len() - 1 ==> comes_first(sorted(s)[i], sorted(s)[i + 1]),
{
    broadcast use vstd::seq_lib::group_to_multiset_ensures;

    sorted_is_in_order(s);
    assert(sorted(s).len() == sorted(s).to_multiset().len());
    assert(s.len() == s.to_multiset().len());
}

} // verus!
