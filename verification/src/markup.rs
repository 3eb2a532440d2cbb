//! Text for markup: escaping and replacing.
use vstd::prelude::*;

use crate::text;

verus! {

/// What stands for a character in XML text.
pub open spec fn escaped_char(c: char) -> Seq<char> {
    if c == '&' {
        "&amp;"@
    } else if c == '<' {
        "&lt;"@
    } else if c == '>' {
        "&gt;"@
    } else if c == '"' {
        "&quot;"@
    } else if c == '\'' {
        "&apos;"@
    } else {
        seq![c]
    }
}

/// `s` with every character that means something in XML written as an entity.
pub open spec fn escaped(s: Seq<char>) -> Seq<char>
    decreases s.len(),
{
    if s.len() == 0 {
        Seq::empty()
    } else {
        escaped(s.drop_last()) + escaped_char(s.last())
    }
}

/// `input` with every character that means something in XML written as an
/// entity; see [`escaped`].
pub fn escape_xml(input: &str) -> (r: String)
    ensures
        r@ == escaped(input@),
{
    let mut r = String::new();
    for c in it: input.chars()
        invariant
            it.seq() == input@,
            r@ == escaped(input@.take(it.index())),
    {
        proof {
            assert(input@.take(it.index() + 1).drop_last() == input@.take(it.index()));
        }
        if c == '&' {
            r.append("&amp;");
        } else if c == '<' {
            r.append("&lt;");
        } else if c == '>' {
            r.append("&gt;");
        } else if c == '"' {
            r.append("&quot;");
        } else if c == '\'' {
            r.append("&apos;");
        } else {
            r.push(c);
        }
    }
    assert(input@.take(input@.len() as int) == input@);
    r
}

/// A character that ends or begins something in XML.
pub open spec fn is_markup(c: char) -> bool {
    c == '<' || c == '>' || c == '"' || c == '\''
}

/// What stands for a character holds no markup.
proof fn escaped_char_is_plain(c: char)
    ensures
        forall|i: int| #![trigger escaped_char(c)[i]] 0 <= i < escaped_char(c).len() ==> !is_markup(escaped_char(c)[i]),
{
    reveal_strlit("&amp;");
    reveal_strlit("&lt;");
    reveal_strlit("&gt;");
    reveal_strlit("&quot;");
    reveal_strlit("&apos;");
}

/// Escaped text holds no markup, whatever the text was.
pub proof fn escaped_text_is_plain(s: Seq<char>)
    ensures
        forall|i: int| #![trigger escaped(s)[i]] 0 <= i < escaped(s).len() ==> !is_markup(escaped(s)[i]),
    decreases s.len(),
{
    if s.len() > 0 {
        escaped_text_is_plain(s.drop_last());
        escaped_char_is_plain(s.last());
        let a = escaped(s.drop_last());
        let b = escaped_char(s.last());
        assert forall|i: int| #![trigger escaped(s)[i]] 0 <= i < escaped(s).len() implies !is_markup(escaped(s)[i]) by {
            if i < a.len() {
                assert(escaped(s)[i] == a[i]);
            } else {
                assert(escaped(s)[i] == b[i - a.len()]);
            }
        }
    }
}

/// Text without special characters is not changed.
pub proof fn plain_text_stays(s: Seq<char>)
    requires
        forall|i: int| #![trigger s[i]] 0 <= i < s.len() ==> !is_markup(s[i]) && s[i] != '&',
    ensures
        escaped(s) == s,
    decreases s.len(),
{
    if s.len() > 0 {
        let rest = s.drop_last();
        assert forall|i: int| #![trigger rest[i]] 0 <= i < rest.len() implies !is_markup(rest[i]) && rest[i]
            != '&' by {
            assert(rest[i] == s[i]);
        }
        plain_text_stays(rest);
        assert(s == rest + seq![s.last()]);
    }
}

/// `s` with every `pattern` replaced, found from left to right without
/// overlaps.
pub open spec fn replaced(s: Seq<char>, pattern: Seq<char>, with: Seq<char>) -> Seq<char>
    decreases s.len(),
{
    if pattern.len() == 0 || s.len() < pattern.len() {
        s
    } else if s.take(pattern.len() as int) == pattern {
        with + replaced(s.skip(pattern.len() as int), pattern, with)
    } else {
        s.take(1) + replaced(s.skip(1), pattern, with)
    }
}

/// `pattern` stands somewhere in `s`.
pub open spec fn occurs(s: Seq<char>, pattern: Seq<char>) -> bool
    decreases s.len(),
{
    text::has_prefix(s, pattern) || (s.len() > 0 && occurs(s.skip(1), pattern))
}

/// What occurs stands at some place.
pub proof fn occurrence_has_place(s: Seq<char>, pattern: Seq<char>)
    requires
        occurs(s, pattern),
    ensures
        exists|i: int| #![trigger s.skip(i)] 0 <= i <= s.len() && text::has_prefix(s.skip(i), pattern),
    decreases s.len(),
{
    if text::has_prefix(s, pattern) {
        assert(s.skip(0) == s);
    } else {
        occurrence_has_place(s.skip(1), pattern);
        let i = choose|i: int|
            #![trigger s.skip(1).skip(i)]
            0 <= i <= s.skip(1).len() && text::has_prefix(s.skip(1).skip(i), pattern);
        assert(s.skip(1).skip(i) == s.skip(i + 1));
    }
}

/// Whether `pattern` stands somewhere in `s`; see [`occurs`].
pub fn contains(s: &str, pattern: &str) -> (r: bool)
    ensures
        r == occurs(s@, pattern@),
{
    let chars = text::chars_of(s);
    let wanted = text::chars_of(pattern);
    let mut i: usize = 0;
    assert(chars@.skip(0) == chars@);
    while i <= chars.len() && wanted.len() <= chars.len() - i
        invariant
            i <= chars@.len(),
            chars@ == s@,
            wanted@ == pattern@,
            occurs(s@, pattern@) == occurs(chars@.skip(i as int), wanted@),
        decreases chars@.len() - i,
    {
        if stands_at(chars.as_slice(), i, wanted.as_slice()) {
            return true;
        }
        if i == chars.len() {
            return false;
        }
        i = i + 1;
        assert(chars@.skip(i - 1).skip(1) == chars@.skip(i as int));
    }
    proof {
        too_short_for(chars@.skip(i as int), wanted@);
    }
    false
}

/// What is longer does not stand in what is shorter.
proof fn too_short_for(s: Seq<char>, pattern: Seq<char>)
    requires
        s.len() < pattern.len(),
    ensures
        !occurs(s, pattern),
    decreases s.len(),
{
    if s.len() > 0 {
        too_short_for(s.skip(1), pattern);
    }
}

/// Whether `pattern` stands in `s` at `at`.
fn stands_at(s: &[char], at: usize, pattern: &[char]) -> (r: bool)
    requires
        at + pattern@.len() <= s@.len(),
    ensures
        r == (s@.skip(at as int).take(pattern@.len() as int) == pattern@),
{
    let ghost here = s@.skip(at as int).take(pattern@.len() as int);
    let len: usize = s.len();
    let mut i: usize = 0;
    while i < pattern.len()
        invariant
            i <= pattern@.len(),
            len == s@.len(),
            at + pattern@.len() <= len,
            here == s@.skip(at as int).take(pattern@.len() as int),
            forall|j: int| #![trigger pattern@[j]] 0 <= j < i ==> here[j] == pattern@[j],
        decreases pattern@.len() - i,
    {
        assert(here[i as int] == s@[at + i]);
        if s[at + i] != pattern[i] {
            return false;
        }
        i = i + 1;
    }
    assert(here == pattern@);
    true
}

/// `s` with every `pattern` replaced; see [`replaced`].
pub fn replace_all(s: &[char], pattern: &[char], with: &[char]) -> (r: Vec<char>)
    requires
        pattern@.len() > 0,
    ensures
        r@ == replaced(s@, pattern@, with@),
{
    let mut r: Vec<char> = Vec::new();
    let mut i: usize = 0;
    assert(s@.skip(0) == s@);
    while i < s.len() && pattern.len() <= s.len() - i
        invariant
            i <= s@.len(),
            pattern@.len() > 0,
            r@ + replaced(s@.skip(i as int), pattern@, with@) == replaced(s@, pattern@, with@),
        decreases s@.len() - i,
    {
        let ghost rest = s@.skip(i as int);
        let ghost before = r@;
        if stands_at(s, i, pattern) {
            r.extend_from_slice(with);
            i = i + pattern.len();
            proof {
                assert(rest.skip(pattern@.len() as int) == s@.skip(i as int));
                let tail = replaced(s@.skip(i as int), pattern@, with@);
                assert(before + (with@ + tail) == (before + with@) + tail);
                assert(r@ == before + with@);
            }
        } else {
            r.push(s[i]);
            i = i + 1;
            proof {
                assert(rest.skip(1) == s@.skip(i as int));
                let tail = replaced(s@.skip(i as int), pattern@, with@);
                assert(rest.take(1) == seq![s@[i - 1]]);
                assert(before + (rest.take(1) + tail) == before.push(s@[i - 1]) + tail);
            }
        }
    }
    let ghost before = r@;
    let ghost from = i;
    while i < s.len()
        invariant
            from <= i <= s@.len(),
            r@ == before + s@.subrange(from as int, i as int),
        decreases s@.len() - i,
    {
        r.push(s[i]);
        i = i + 1;
        assert(s@.subrange(from as int, i as int) == s@.subrange(from as int, i - 1).push(s@[i - 1]));
    }
    assert(s@.subrange(from as int, s@.len() as int) == s@.skip(from as int));
    r
}

/// Replacing goes from left to right: a pattern that stands first is replaced,
/// what follows is gone through from behind it, and a character that begins no
/// pattern stays.
pub proof fn replacing_goes_left_to_right(c: char, rest: Seq<char>, pattern: Seq<char>, with: Seq<char>)
    requires
        pattern.len() > 0,
    ensures
        replaced(Seq::empty(), pattern, with) == Seq::<char>::empty(),
        replaced(pattern + rest, pattern, with) == with + replaced(rest, pattern, with),
        !((seq![c] + rest).len() >= pattern.len() && (seq![c] + rest).subrange(0, pattern.len() as int)
            == pattern) ==> replaced(seq![c] + rest, pattern, with) == seq![c] + replaced(
            rest,
            pattern,
            with,
        ),
{
    let whole = pattern + rest;
    assert(whole.take(pattern.len() as int) == pattern);
    assert(whole.skip(pattern.len() as int) == rest);
    let one = seq![c] + rest;
    assert(one.take(pattern.len() as int) == one.subrange(0, pattern.len() as int));
    assert(one.take(1) == seq![c]);
    assert(one.skip(1) == rest);
}

/// Text in which the pattern does not stand is left as it is.
pub proof fn nothing_to_replace(s: Seq<char>, pattern: Seq<char>, with: Seq<char>)
    requires
        pattern.len() > 0,
        forall|i: int|
            0 <= i <= s.len() - pattern.len() ==> #[trigger] s.subrange(i, i + pattern.len()) != pattern,
    ensures
        replaced(s, pattern, with) == s,
    decreases s.len(),
{
    if s.len() >= pattern.len() {
        let rest = s.skip(1);
        assert(s.take(pattern.len() as int) == s.subrange(0, 0 + pattern.len() as int));
        assert forall|i: int| 0 <= i <= rest.len() - pattern.len() implies #[trigger] rest.subrange(
            i,
            i + pattern.len(),
        ) != pattern by {
            assert(rest.subrange(i, i + pattern.len()) == s.subrange(i + 1, i + 1 + pattern.len()));
        }
        nothing_to_replace(rest, pattern, with);
        assert(s.take(1) + rest == s);
    }
}

/// Escaping goes character by character: the five that mean something in XML
/// are written as their entities, and every other one as it is.
pub proof fn five_characters_are_escaped(s: Seq<char>, c: char)
    ensures
        escaped(Seq::empty()) == Seq::<char>::empty(),
        escaped(s.push('&')) == escaped(s) + "&amp;"@,
        escaped(s.push('<')) == escaped(s) + "&lt;"@,
        escaped(s.push('>')) == escaped(s) + "&gt;"@,
        escaped(s.push('"')) == escaped(s) + "&quot;"@,
        escaped(s.push('\'')) == escaped(s) + "&apos;"@,
        c != '&' && c != '<' && c != '>' && c != '"' && c != '\'' ==> escaped(s.push(c)) == escaped(s).push(c),
{
    assert(s.push('&').drop_last() == s);
    assert(s.push('<').drop_last() == s);
    assert(s.push('>').drop_last() == s);
    assert(s.push('"').drop_last() == s);
    assert(s.push('\'').drop_last() == s);
    assert(s.push(c).drop_last() == s);
    assert(escaped(s) + seq![c] == escaped(s).push(c));
}

/// What stands somewhere is found, and nothing else.
pub proof fn found_where_it_stands(s: Seq<char>, pattern: Seq<char>)
    ensures
        occurs(s, pattern) <==> exists|i: int|
            0 <= i <= s.len() - pattern.len() && #[trigger] s.subrange(i, i + pattern.len()) == pattern,
    decreases s.len(),
{
    let n = pattern.len() as int;
    if occurs(s, pattern) {
        occurrence_has_place(s, pattern);
        let i = choose|i: int|
            #![trigger s.skip(i)]
            0 <= i <= s.len() && text::has_prefix(s.skip(i), pattern);
        assert(s.subrange(i, i + n) == s.skip(i).take(n));
    }
    if exists|i: int| 0 <= i <= s.len() - n && #[trigger] s.subrange(i, i + n) == pattern {
        let i = choose|i: int| 0 <= i <= s.len() - n && #[trigger] s.subrange(i, i + n) == pattern;
        if i == 0 {
            assert(s.take(n) == s.subrange(0, n));
        } else {
            let rest = s.skip(1);
            found_where_it_stands(rest, pattern);
            assert(rest.subrange(i - 1, i - 1 + n) == s.subrange(i, i + n));
        }
    }
}

} // verus!
