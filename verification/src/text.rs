//! Text primitives: characters of a string, splitting, decimal numbers and
//! prefix tests, each stated over the sequence of characters.
use vstd::prelude::*;

verus! {

/// `String::push` appends one character to the end of the string.
pub assume_specification[ String::push ](s: &mut String, ch: char)
    ensures
        final(s)@ == old(s)@.push(ch),
;

/// The characters of `s`, in order.
pub fn chars_of(s: &str) -> (v: Vec<char>)
    ensures
        v@ == s@,
{
    let mut v: Vec<char> = Vec::new();
    for c in it: s.chars()
        invariant
            v@ == s@.take(it.index()),
            it.seq() == s@,
    {
        v.push(c);
    }
    proof {
        assert(s@.take(s@.len() as int) == s@);
    }
    v
}

/// The string made of the characters of `v`, in order.
pub fn string_of(v: &[char]) -> (s: String)
    ensures
        s@ == v@,
{
    let mut s = String::new();
    let mut i: usize = 0;
    while i < v.len()
        invariant
            i <= v@.len(),
            s@ == v@.take(i as int),
        decreases v@.len() - i,
    {
        s.push(v[i]);
        i += 1;
    }
    proof {
        assert(v@.take(v@.len() as int) == v@);
    }
    s
}

/// The characters of each string.
pub open spec fn texts(v: Seq<String>) -> Seq<Seq<char>> {
    v.map_values(|s: String| s@)
}

/// A copy of some strings.
pub fn copied(v: &Vec<String>) -> (r: Vec<String>)
    ensures
        r@ == v@,
{
    let mut r: Vec<String> = Vec::new();
    let mut i: usize = 0;
    while i < v.len()
        invariant
            i <= v@.len(),
            r@ == v@.take(i as int),
        decreases v@.len() - i,
    {
        r.push(v[i].clone());
        i = i + 1;
    }
    assert(v@.take(v@.len() as int) == v@);
    r
}

/// Texts with `sep` between them.
pub open spec fn listed_with(items: Seq<Seq<char>>, sep: Seq<char>) -> Seq<char>
    decreases items.len(),
{
    if items.len() == 0 {
        Seq::empty()
    } else if items.len() == 1 {
        items[0]
    } else {
        listed_with(items.drop_last(), sep) + sep + items.last()
    }
}

/// Texts with `sep` between them; see [`listed_with`].
pub fn join_texts(items: &Vec<String>, sep: &str) -> (r: String)
    ensures
        r@ == listed_with(texts(items@), sep@),
{
    let ghost all = texts(items@);
    let mut r = String::new();
    let mut i: usize = 0;
    while i < items.len()
        invariant
            i <= items@.len(),
            all == texts(items@),
            r@ == listed_with(all.take(i as int), sep@),
        decreases items@.len() - i,
    {
        proof {
            assert(all.take(i + 1).drop_last() == all.take(i as int));
            assert(all.take(i + 1).last() == items@[i as int]@);
        }
        if i > 0 {
            r.append(sep);
            r.append(items[i].as_str());
        } else {
            r = items[i].clone();
        }
        i = i + 1;
    }
    assert(all.take(all.len() as int) == all);
    r
}

/// `b` behind `a`.
pub fn joined(a: &str, b: &str) -> (r: String)
    ensures
        r@ == a@ + b@,
{
    let mut r = a.to_owned();
    r.append(b);
    r
}

/// Whether two strings hold the same characters.
pub fn same_text(a: &str, b: &str) -> (r: bool)
    ensures
        r == (a@ == b@),
{
    a.to_owned() == b.to_owned()
}

// ---------------------------------------------------------------------------
// Splitting
// ---------------------------------------------------------------------------

/// The pieces of `s` between occurrences of `sep`: one more piece than there
/// are separators, and a single empty piece for the empty sequence.
pub open spec fn split_on<T>(s: Seq<T>, sep: T) -> Seq<Seq<T>>
    decreases s.len(),
{
    if s.len() == 0 {
        seq![Seq::empty()]
    } else {
        let pieces = split_on(s.drop_last(), sep);
        if s.last() == sep {
            pieces.push(Seq::empty())
        } else {
            pieces.update(pieces.len() - 1, pieces.last().push(s.last()))
        }
    }
}

/// The pieces put back together with `sep` between them.
pub open spec fn join_with<T>(pieces: Seq<Seq<T>>, sep: T) -> Seq<T>
    decreases pieces.len(),
{
    if pieces.len() == 0 {
        Seq::empty()
    } else if pieces.len() == 1 {
        pieces[0]
    } else {
        join_with(pieces.drop_last(), sep).push(sep) + pieces.last()
    }
}

/// Splitting loses nothing: the pieces joined by the separator are the whole,
/// there is at least one piece, and no piece holds the separator.
pub proof fn split_then_join<T>(s: Seq<T>, sep: T)
    ensures
        split_on(s, sep).len() >= 1,
        join_with(split_on(s, sep), sep) == s,
        forall|i: int| 0 <= i < split_on(s, sep).len() ==> !(#[trigger] split_on(s, sep)[i]).contains(sep),
    decreases s.len(),
{
    let pieces = split_on(s, sep);
    if s.len() == 0 {
        assert(pieces[0] == s);
    } else {
        let before = split_on(s.drop_last(), sep);
        split_then_join(s.drop_last(), sep);
        if s.last() == sep {
            assert(pieces.drop_last() == before);
            assert(join_with(pieces, sep) == s.drop_last().push(sep) + Seq::<T>::empty());
            assert(s == s.drop_last().push(sep) + Seq::<T>::empty());
        } else {
            assert(pieces.drop_last() == before.drop_last());
            assert(pieces.last() == before.last().push(s.last()));
            if before.len() == 1 {
                assert(join_with(pieces, sep) == s.drop_last().push(s.last()));
            } else {
                assert(join_with(pieces, sep)
                    == join_with(before.drop_last(), sep).push(sep) + before.last().push(s.last()));
                assert(join_with(pieces, sep) == join_with(before, sep).push(s.last()));
            }
            assert(s == s.drop_last().push(s.last()));
            assert forall|i: int| 0 <= i < pieces.len() implies !(#[trigger] pieces[i]).contains(sep) by {
                if i < pieces.len() - 1 {
                    assert(pieces[i] == before[i]);
                } else {
                    assert(!before[i].contains(sep));
                    assert forall|k: int| 0 <= k < pieces[i].len() implies pieces[i][k] != sep by {
                        if k < before[i].len() {
                            assert(before[i].contains(before[i][k]));
                        }
                    }
                }
            }
        }
    }
}

/// What holds no separator is one piece.
pub proof fn split_whole<T>(s: Seq<T>, sep: T)
    requires
        !s.contains(sep),
    ensures
        split_on(s, sep) == seq![s],
    decreases s.len(),
{
    if s.len() > 0 {
        let rest = s.drop_last();
        assert(!rest.contains(sep)) by {
            assert forall|i: int| 0 <= i < rest.len() implies rest[i] != sep by {
                assert(s.contains(s[i]));
            }
        }
        split_whole(rest, sep);
        assert(s.contains(s.last()));
        assert(rest.push(s.last()) == s);
    } else {
        assert(s == Seq::<T>::empty());
    }
}

/// Two pieces with a separator between them are told apart again.
pub proof fn split_pair<T>(a: Seq<T>, b: Seq<T>, sep: T)
    requires
        !a.contains(sep),
        !b.contains(sep),
    ensures
        split_on(a.push(sep) + b, sep) == seq![a, b],
    decreases b.len(),
{
    let s = a.push(sep) + b;
    if b.len() == 0 {
        split_whole(a, sep);
        assert(s.drop_last() == a);
        assert(b == Seq::<T>::empty());
    } else {
        let rest = b.drop_last();
        assert(!rest.contains(sep)) by {
            assert forall|i: int| 0 <= i < rest.len() implies rest[i] != sep by {
                assert(b.contains(b[i]));
            }
        }
        split_pair(a, rest, sep);
        assert(s.drop_last() == a.push(sep) + rest);
        assert(b.contains(b.last()));
        assert(rest.push(b.last()) == b);
    }
}

/// The views of the pieces.
pub open spec fn views<T>(pieces: Seq<Vec<T>>) -> Seq<Seq<T>> {
    pieces.map_values(|p: Vec<T>| p@)
}

/// Splits characters at every `sep`.
pub fn split_chars(s: &[char], sep: char) -> (pieces: Vec<Vec<char>>)
    ensures
        views(pieces@) == split_on(s@, sep),
{
    let mut pieces: Vec<Vec<char>> = Vec::new();
    let mut cur: Vec<char> = Vec::new();
    let mut i: usize = 0;
    proof {
        assert(views(pieces@).push(cur@) == split_on(s@.take(0), sep));
    }
    while i < s.len()
        invariant
            i <= s@.len(),
            views(pieces@).push(cur@) == split_on(s@.take(i as int), sep),
        decreases s@.len() - i,
    {
        let c: char = s[i];
        proof {
            assert(s@.take(i + 1).drop_last() == s@.take(i as int));
        }
        let ghost before = views(pieces@).push(cur@);
        if c == sep {
            let ghost prev = cur@;
            pieces.push(cur);
            cur = Vec::new();
            proof {
                assert(views(pieces@) == before);
            }
        } else {
            cur.push(c);
            proof {
                assert(views(pieces@).push(cur@) == before.update(before.len() - 1, before.last().push(c)));
            }
        }
        i += 1;
    }
    pieces.push(cur);
    proof {
        assert(s@.take(s@.len() as int) == s@);
        assert(views(pieces@) == split_on(s@, sep));
    }
    pieces
}

/// Splits bytes at every `sep`.
pub fn split_bytes(s: &[u8], sep: u8) -> (pieces: Vec<Vec<u8>>)
    ensures
        views(pieces@) == split_on(s@, sep),
{
    let mut pieces: Vec<Vec<u8>> = Vec::new();
    let mut cur: Vec<u8> = Vec::new();
    let mut i: usize = 0;
    proof {
        assert(views(pieces@).push(cur@) == split_on(s@.take(0), sep));
    }
    while i < s.len()
        invariant
            i <= s@.len(),
            views(pieces@).push(cur@) == split_on(s@.take(i as int), sep),
        decreases s@.len() - i,
    {
        let c: u8 = s[i];
        proof {
            assert(s@.take(i + 1).drop_last() == s@.take(i as int));
        }
        let ghost before = views(pieces@).push(cur@);
        if c == sep {
            pieces.push(cur);
            cur = Vec::new();
            proof {
                assert(views(pieces@) == before);
            }
        } else {
            cur.push(c);
            proof {
                assert(views(pieces@).push(cur@) == before.update(before.len() - 1, before.last().push(c)));
            }
        }
        i += 1;
    }
    pieces.push(cur);
    proof {
        assert(s@.take(s@.len() as int) == s@);
        assert(views(pieces@) == split_on(s@, sep));
    }
    pieces
}

// ---------------------------------------------------------------------------
// Prefixes
// ---------------------------------------------------------------------------

/// Whether `s` begins with `prefix`.
pub open spec fn has_prefix<T>(s: Seq<T>, prefix: Seq<T>) -> bool {
    s.len() >= prefix.len() && s.take(prefix.len() as int) == prefix
}

/// Whether `s` ends with `suffix`.
pub open spec fn has_suffix<T>(s: Seq<T>, suffix: Seq<T>) -> bool {
    s.len() >= suffix.len() && s.skip(s.len() - suffix.len()) == suffix
}

/// Whether the characters `s` begin with `prefix`.
pub fn starts_with(s: &[char], prefix: &[char]) -> (r: bool)
    ensures
        r == has_prefix(s@, prefix@),
{
    if s.len() < prefix.len() {
        return false;
    }
    let mut i: usize = 0;
    while i < prefix.len()
        invariant
            i <= prefix@.len() <= s@.len(),
            s@.take(i as int) == prefix@.take(i as int),
        decreases prefix@.len() - i,
    {
        if s[i] != prefix[i] {
            proof {
                assert(s@.take(prefix@.len() as int)[i as int] != prefix@[i as int]);
            }
            return false;
        }
        i += 1;
        proof {
            assert(s@.take(i as int) == prefix@.take(i as int));
        }
    }
    proof {
        assert(prefix@.take(prefix@.len() as int) == prefix@);
    }
    true
}

/// Whether the bytes `s` begin with `prefix`.
pub fn starts_with_bytes(s: &[u8], prefix: &[u8]) -> (r: bool)
    ensures
        r == has_prefix(s@, prefix@),
{
    if s.len() < prefix.len() {
        return false;
    }
    let mut i: usize = 0;
    while i < prefix.len()
        invariant
            i <= prefix@.len() <= s@.len(),
            s@.take(i as int) == prefix@.take(i as int),
        decreases prefix@.len() - i,
    {
        if s[i] != prefix[i] {
            proof {
                assert(s@.take(prefix@.len() as int)[i as int] != prefix@[i as int]);
            }
            return false;
        }
        i += 1;
        proof {
            assert(s@.take(i as int) == prefix@.take(i as int));
        }
    }
    proof {
        assert(prefix@.take(prefix@.len() as int) == prefix@);
    }
    true
}

// ---------------------------------------------------------------------------
// Decimal numbers
// ---------------------------------------------------------------------------

/// Why a decimal number could not be read.
#[derive(Clone, Copy, Debug, PartialEq, Eq, Structural)]
pub enum NumberError {
    /// There was nothing to read.
    Empty,
    /// Something other than a digit was met.
    InvalidDigit,
    /// The number is above the largest allowed one.
    TooLarge,
    /// The number is below the smallest allowed one.
    TooSmall,
}

impl NumberError {
    /// The message that goes with the error.
    pub open spec fn message_spec(self) -> Seq<char> {
        match self {
            NumberError::Empty => "cannot parse integer from empty string"@,
            NumberError::InvalidDigit => "invalid digit found in string"@,
            NumberError::TooLarge => "number too large to fit in target type"@,
            NumberError::TooSmall => "number too small to fit in target type"@,
        }
    }

    /// The message that goes with the error.
    pub fn message(self) -> (m: &'static str)
        ensures
            m@ == self.message_spec(),
    {
        match self {
            NumberError::Empty => "cannot parse integer from empty string",
            NumberError::InvalidDigit => "invalid digit found in string",
            NumberError::TooLarge => "number too large to fit in target type",
            NumberError::TooSmall => "number too small to fit in target type",
        }
    }
}

/// Whether `c` is a decimal digit.
pub open spec fn is_digit(c: char) -> bool {
    '0' <= c <= '9'
}

/// The value of a decimal digit.
pub open spec fn digit_value(c: char) -> int {
    c as int - '0' as int
}

/// Reads digits from left to right as a number of at most `max`, stopping at
/// the first character that is no digit or that takes the number over `max`.
pub open spec fn read_digits(s: Seq<char>, max: int) -> Result<int, NumberError>
    decreases s.len(),
{
    if s.len() == 0 {
        Ok(0)
    } else {
        match read_digits(s.drop_last(), max) {
            Err(e) => Err(e),
            Ok(v) => if !is_digit(s.last()) {
                Err(NumberError::InvalidDigit)
            } else if v * 10 + digit_value(s.last()) > max {
                Err(NumberError::TooLarge)
            } else {
                Ok(v * 10 + digit_value(s.last()))
            },
        }
    }
}

/// Reads an unsigned decimal number: an optional `+`, then one digit or more.
pub open spec fn read_unsigned(s: Seq<char>, max: int) -> Result<int, NumberError> {
    if s.len() == 0 {
        Err(NumberError::Empty)
    } else if s.len() == 1 && (s[0] == '+' || s[0] == '-') {
        Err(NumberError::InvalidDigit)
    } else if s[0] == '+' {
        read_digits(s.skip(1), max)
    } else {
        read_digits(s, max)
    }
}

/// What is read from a longer run of characters is settled by a shorter one
/// once that fails.
proof fn read_digits_prefix(s: Seq<char>, k: int, max: int)
    requires
        0 <= k <= s.len(),
        read_digits(s.take(k), max) is Err,
    ensures
        read_digits(s, max) == read_digits(s.take(k), max),
    decreases s.len(),
{
    if k == s.len() {
        assert(s.take(k) == s);
    } else {
        assert(s.drop_last().take(k) == s.take(k));
        read_digits_prefix(s.drop_last(), k, max);
    }
}

/// Reads `s[from..]` as digits; see [`read_digits`].
pub fn parse_digits(s: &[char], from: usize, max: u64) -> (r: Result<u64, NumberError>)
    requires
        from <= s@.len(),
    ensures
        r is Ok <==> read_digits(s@.skip(from as int), max as int) is Ok,
        r matches Ok(v) ==> read_digits(s@.skip(from as int), max as int) == Ok::<int, NumberError>(v as int),
        r matches Err(e) ==> read_digits(s@.skip(from as int), max as int) == Err::<int, NumberError>(e),
{
    let ghost rest = s@.skip(from as int);
    let mut v: u64 = 0;
    let mut i: usize = from;
    while i < s.len()
        invariant
            from <= i <= s@.len(),
            rest == s@.skip(from as int),
            read_digits(rest.take(i - from), max as int) == Ok::<int, NumberError>(v as int),
            v <= max,
        decreases s@.len() - i,
    {
        let c: char = s[i];
        proof {
            assert(rest.take(i - from + 1).drop_last() == rest.take(i - from));
            assert(rest.take(i - from + 1).last() == c);
        }
        if !(c >= '0' && c <= '9') {
            proof {
                read_digits_prefix(rest, i - from + 1, max as int);
            }
            return Err(NumberError::InvalidDigit);
        }
        let d: u64 = c as u64 - '0' as u64;
        if v > max / 10 || v * 10 > max - d.min(max) || d > max {
            proof {
                read_digits_prefix(rest, i - from + 1, max as int);
            }
            return Err(NumberError::TooLarge);
        }
        v = v * 10 + d;
        i += 1;
    }
    proof {
        assert(rest.take(s@.len() - from) == rest);
    }
    Ok(v)
}

/// Reads an unsigned decimal number of at most `max`; see [`read_unsigned`].
pub fn parse_unsigned(s: &[char], max: u64) -> (r: Result<u64, NumberError>)
    ensures
        r is Ok <==> read_unsigned(s@, max as int) is Ok,
        r matches Ok(v) ==> read_unsigned(s@, max as int) == Ok::<int, NumberError>(v as int) && v <= max,
        r matches Err(e) ==> read_unsigned(s@, max as int) == Err::<int, NumberError>(e),
{
    if s.len() == 0 {
        return Err(NumberError::Empty);
    }
    if s.len() == 1 && (s[0] == '+' || s[0] == '-') {
        return Err(NumberError::InvalidDigit);
    }
    let from: usize = if s[0] == '+' { 1 } else { 0 };
    proof {
        assert(s@.skip(0) == s@);
        read_digits_at_most(s@.skip(from as int), max as int);
    }
    parse_digits(s, from, max)
}

/// A number that is read is at most `max`.
pub proof fn read_digits_at_most(s: Seq<char>, max: int)
    requires
        max >= 0,
    ensures
        read_digits(s, max) matches Ok(v) ==> 0 <= v <= max,
    decreases s.len(),
{
    if s.len() > 0 {
        read_digits_at_most(s.drop_last(), max);
    }
}

/// The decimal digits of `n`, without leading zeros.
pub open spec fn decimal(n: nat) -> Seq<char>
    decreases n,
{
    if n < 10 {
        seq![(48 + n) as char]
    } else {
        decimal(n / 10).push((48 + n % 10) as char)
    }
}

/// Writing a number down and reading it back gives the number.
pub proof fn decimal_reads_back(n: nat, max: int)
    requires
        n <= max,
    ensures
        decimal(n).len() >= 1,
        forall|i: int| 0 <= i < decimal(n).len() ==> is_digit(#[trigger] decimal(n)[i]),
        read_digits(decimal(n), max) == Ok::<int, NumberError>(n as int),
        read_unsigned(decimal(n), max) == Ok::<int, NumberError>(n as int),
    decreases n,
{
    if n < 10 {
        let s = decimal(n);
        assert(s.drop_last() == Seq::<char>::empty());
        assert(read_digits(s.drop_last(), max) == Ok::<int, NumberError>(0));
    } else {
        decimal_reads_back(n / 10, max);
        assert(decimal(n).drop_last() == decimal(n / 10));
    }
    assert(is_digit(decimal(n)[0]));
}

/// The character of the decimal digit `d`.
fn digit_char(d: u64) -> (c: char)
    requires
        d < 10,
    ensures
        c == (48 + d) as char,
{
    match d {
        0 => '0',
        1 => '1',
        2 => '2',
        3 => '3',
        4 => '4',
        5 => '5',
        6 => '6',
        7 => '7',
        8 => '8',
        _ => '9',
    }
}

/// Writes `n` in decimal; see [`decimal`].
pub fn decimal_chars(n: u64) -> (s: Vec<char>)
    ensures
        s@ == decimal(n as nat),
    decreases n,
{
    if n < 10 {
        let mut s: Vec<char> = Vec::new();
        s.push(digit_char(n));
        proof {
            assert(s@ == decimal(n as nat));
        }
        s
    } else {
        let mut s = decimal_chars(n / 10);
        s.push(digit_char(n % 10));
        s
    }
}

/// Writes `n` in decimal; see [`decimal`].
pub fn decimal_string(n: u64) -> (s: String)
    ensures
        s@ == decimal(n as nat),
{
    let v = decimal_chars(n);
    string_of(&v)
}

// ---------------------------------------------------------------------------
// Positions and words
// ---------------------------------------------------------------------------

/// The index of the first `c` in `s`.
pub open spec fn first_position<T>(s: Seq<T>, c: T) -> Option<int>
    decreases s.len(),
{
    if s.len() == 0 {
        None
    } else {
        match first_position(s.drop_last(), c) {
            Some(i) => Some(i),
            None => if s.last() == c {
                Some(s.len() - 1)
            } else {
                None
            },
        }
    }
}

/// The index of the last `c` in `s`.
pub open spec fn last_position<T>(s: Seq<T>, c: T) -> Option<int>
    decreases s.len(),
{
    if s.len() == 0 {
        None
    } else if s.last() == c {
        Some(s.len() - 1)
    } else {
        last_position(s.drop_last(), c)
    }
}

/// A first position holds the element, and nothing before it does; there is
/// none exactly when the element does not occur.
pub proof fn first_position_is_first<T>(s: Seq<T>, c: T)
    ensures
        first_position(s, c) matches Some(i) ==> 0 <= i < s.len() && s[i] == c && (forall|j: int|
            0 <= j < i ==> s[j] != c),
        first_position(s, c) is None <==> !s.contains(c),
    decreases s.len(),
{
    if s.len() > 0 {
        let t = s.drop_last();
        first_position_is_first(t, c);
        if first_position(t, c) is Some {
            let i = first_position(t, c)->0;
            assert(s[i] == c);
            assert(forall|j: int| 0 <= j < i ==> t[j] == s[j]);
        } else {
            assert forall|j: int| 0 <= j < s.len() - 1 implies s[j] != c by {
                assert(t[j] == s[j]);
                assert(t.contains(t[j]));
            }
            if s.last() == c {
                assert(s[s.len() - 1] == c);
            }
        }
    }
}

/// A last position holds the element, and nothing after it does; there is
/// none exactly when the element does not occur.
pub proof fn last_position_is_last<T>(s: Seq<T>, c: T)
    ensures
        last_position(s, c) matches Some(i) ==> 0 <= i < s.len() && s[i] == c && (forall|j: int|
            i < j < s.len() ==> s[j] != c),
        last_position(s, c) is None <==> !s.contains(c),
    decreases s.len(),
{
    if s.len() > 0 {
        let t = s.drop_last();
        last_position_is_last(t, c);
        if s.last() == c {
            assert(s[s.len() - 1] == c);
        } else if last_position(t, c) is None {
            assert forall|j: int| 0 <= j < s.len() implies s[j] != c by {
                if j < t.len() {
                    assert(t[j] == s[j]);
                    assert(t.contains(t[j]));
                }
            }
        } else {
            let i = last_position(t, c)->0;
            assert(t[i] == s[i]);
            assert(forall|j: int| i < j < t.len() ==> t[j] == s[j]);
        }
    }
}

/// Finds the first `c`; see [`first_position`].
pub fn find_char(s: &[char], c: char) -> (r: Option<usize>)
    ensures
        r matches Some(i) ==> first_position(s@, c) == Some(i as int),
        r is None ==> first_position(s@, c) is None,
{
    let mut i: usize = 0;
    while i < s.len()
        invariant
            i <= s@.len(),
            first_position(s@.take(i as int), c) is None,
        decreases s@.len() - i,
    {
        proof {
            assert(s@.take(i + 1).drop_last() == s@.take(i as int));
        }
        if s[i] == c {
            proof {
                first_position_prefix(s@, i + 1, c);
            }
            return Some(i);
        }
        i += 1;
    }
    proof {
        assert(s@.take(s@.len() as int) == s@);
    }
    None
}

/// Finds the first `b`; see [`first_position`].
pub fn find_byte(s: &[u8], b: u8) -> (r: Option<usize>)
    ensures
        r matches Some(i) ==> first_position(s@, b) == Some(i as int),
        r is None ==> first_position(s@, b) is None,
{
    let mut i: usize = 0;
    while i < s.len()
        invariant
            i <= s@.len(),
            first_position(s@.take(i as int), b) is None,
        decreases s@.len() - i,
    {
        proof {
            assert(s@.take(i + 1).drop_last() == s@.take(i as int));
        }
        if s[i] == b {
            proof {
                first_position_prefix(s@, i + 1, b);
            }
            return Some(i);
        }
        i += 1;
    }
    proof {
        assert(s@.take(s@.len() as int) == s@);
    }
    None
}

/// A first position in a beginning of `s` is the first position in `s`.
proof fn first_position_prefix<T>(s: Seq<T>, k: int, c: T)
    requires
        0 <= k <= s.len(),
        first_position(s.take(k), c) is Some,
    ensures
        first_position(s, c) == first_position(s.take(k), c),
    decreases s.len(),
{
    if k == s.len() {
        assert(s.take(k) == s);
    } else {
        assert(s.drop_last().take(k) == s.take(k));
        first_position_prefix(s.drop_last(), k, c);
    }
}

/// Finds the last `c`; see [`last_position`].
pub fn rfind_char(s: &[char], c: char) -> (r: Option<usize>)
    ensures
        r matches Some(i) ==> last_position(s@, c) == Some(i as int),
        r is None ==> last_position(s@, c) is None,
{
    let mut i: usize = s.len();
    proof {
        assert(s@.take(s@.len() as int) == s@);
    }
    while i > 0
        invariant
            i <= s@.len(),
            last_position(s@, c) == last_position(s@.take(i as int), c),
        decreases i,
    {
        proof {
            assert(s@.take(i as int).drop_last() == s@.take(i - 1));
        }
        if s[i - 1] == c {
            return Some(i - 1);
        }
        i -= 1;
    }
    None
}

/// Whether `c` is white space in Unicode.
pub open spec fn is_space(c: char) -> bool {
    let n = c as int;
    ||| 0x09 <= n <= 0x0D
    ||| n == 0x20
    ||| n == 0x85
    ||| n == 0xA0
    ||| n == 0x1680
    ||| 0x2000 <= n <= 0x200A
    ||| n == 0x2028
    ||| n == 0x2029
    ||| n == 0x202F
    ||| n == 0x205F
    ||| n == 0x3000
}

/// Whether `c` is white space in Unicode.
pub fn is_space_char(c: char) -> (r: bool)
    ensures
        r == is_space(c),
{
    let n: u32 = c as u32;
    (0x09 <= n && n <= 0x0D) || n == 0x20 || n == 0x85 || n == 0xA0 || n == 0x1680 || (0x2000 <= n && n
        <= 0x200A) || n == 0x2028 || n == 0x2029 || n == 0x202F || n == 0x205F || n == 0x3000
}

/// The words of `s`: its longest runs of characters that are no white space.
pub open spec fn words(s: Seq<char>) -> Seq<Seq<char>>
    decreases s.len(),
{
    if s.len() == 0 {
        Seq::empty()
    } else {
        let before = words(s.drop_last());
        if is_space(s.last()) {
            before
        } else if s.len() == 1 || is_space(s[s.len() - 2]) {
            before.push(seq![s.last()])
        } else {
            before.update(before.len() - 1, before.last().push(s.last()))
        }
    }
}

/// Splits at white space; see [`words`].
pub fn split_words(s: &[char]) -> (pieces: Vec<Vec<char>>)
    ensures
        views(pieces@) == words(s@),
{
    let mut pieces: Vec<Vec<char>> = Vec::new();
    let mut cur: Vec<char> = Vec::new();
    let mut i: usize = 0;
    proof {
        assert(views(pieces@) == words(s@.take(0)));
    }
    while i < s.len()
        invariant
            i <= s@.len(),
            cur@.len() == 0 <==> (i == 0 || is_space(s@[i - 1])),
            cur@.len() == 0 ==> views(pieces@) == words(s@.take(i as int)),
            cur@.len() > 0 ==> views(pieces@).push(cur@) == words(s@.take(i as int)),
        decreases s@.len() - i,
    {
        let c: char = s[i];
        let ghost before = words(s@.take(i as int));
        proof {
            assert(s@.take(i + 1).drop_last() == s@.take(i as int));
            assert(s@.take(i + 1).last() == c);
            if i > 0 {
                assert(s@.take(i + 1)[i - 1] == s@[i - 1]);
            }
        }
        if is_space_char(c) {
            if cur.len() > 0 {
                pieces.push(cur);
                cur = Vec::new();
                proof {
                    assert(views(pieces@) == before);
                }
            }
        } else {
            cur.push(c);
            proof {
                if cur@.len() == 1 {
                    assert(cur@ == seq![c]);
                    assert(views(pieces@).push(cur@) == before.push(seq![c]));
                } else {
                    assert(views(pieces@).push(cur@) == before.update(
                        before.len() - 1,
                        before.last().push(c),
                    ));
                }
            }
        }
        i += 1;
    }
    proof {
        assert(s@.take(s@.len() as int) == s@);
    }
    if cur.len() > 0 {
        pieces.push(cur);
        proof {
            assert(views(pieces@) == words(s@));
        }
    }
    pieces
}

/// The characters of `s[from..to]`.
pub fn sub_chars(s: &[char], from: usize, to: usize) -> (r: Vec<char>)
    requires
        from <= to <= s@.len(),
    ensures
        r@ == s@.subrange(from as int, to as int),
{
    let mut r: Vec<char> = Vec::new();
    let mut i: usize = from;
    while i < to
        invariant
            from <= i <= to <= s@.len(),
            r@ == s@.subrange(from as int, i as int),
        decreases to - i,
    {
        r.push(s[i]);
        i += 1;
        proof {
            assert(r@ == s@.subrange(from as int, i as int));
        }
    }
    r
}

/// The bytes of `s[from..to]`.
pub fn sub_bytes(s: &[u8], from: usize, to: usize) -> (r: Vec<u8>)
    requires
        from <= to <= s@.len(),
    ensures
        r@ == s@.subrange(from as int, to as int),
{
    let mut r: Vec<u8> = Vec::new();
    let mut i: usize = from;
    while i < to
        invariant
            from <= i <= to <= s@.len(),
            r@ == s@.subrange(from as int, i as int),
        decreases to - i,
    {
        r.push(s[i]);
        i += 1;
        proof {
            assert(r@ == s@.subrange(from as int, i as int));
        }
    }
    r
}

/// `s` without the white space at its beginning.
pub open spec fn trim_front(s: Seq<char>) -> Seq<char>
    decreases s.len(),
{
    if s.len() > 0 && is_space(s[0]) {
        trim_front(s.skip(1))
    } else {
        s
    }
}

/// `s` without the white space at its end.
pub open spec fn trim_back(s: Seq<char>) -> Seq<char>
    decreases s.len(),
{
    if s.len() > 0 && is_space(s.last()) {
        trim_back(s.drop_last())
    } else {
        s
    }
}

/// `s` without white space at its two ends.
pub open spec fn trimmed(s: Seq<char>) -> Seq<char> {
    trim_back(trim_front(s))
}

/// `s` without white space at its two ends; see [`trimmed`].
pub fn trim(s: &[char]) -> (r: Vec<char>)
    ensures
        r@ == trimmed(s@),
{
    let mut from: usize = 0;
    proof {
        assert(s@.skip(0) == s@);
    }
    while from < s.len() && is_space_char(s[from])
        invariant
            from <= s@.len(),
            trim_front(s@) == trim_front(s@.skip(from as int)),
        decreases s@.len() - from,
    {
        proof {
            assert(s@.skip(from as int).skip(1) == s@.skip(from + 1));
        }
        from += 1;
    }
    let ghost rest = s@.skip(from as int);
    let mut to: usize = s.len();
    proof {
        assert(trim_front(s@) == rest);
        assert(rest == s@.subrange(from as int, s@.len() as int));
    }
    while to > from && is_space_char(s[to - 1])
        invariant
            from <= to <= s@.len(),
            trim_back(rest) == trim_back(s@.subrange(from as int, to as int)),
        decreases to,
    {
        proof {
            assert(s@.subrange(from as int, to as int).drop_last() == s@.subrange(from as int, to - 1));
        }
        to -= 1;
    }
    sub_chars(s, from, to)
}

/// Whether two runs of characters are equal.
pub fn same_chars(a: &[char], b: &[char]) -> (r: bool)
    ensures
        r == (a@ == b@),
{
    let r = a.len() == b.len() && starts_with(a, b);
    proof {
        if a@.len() == b@.len() {
            assert(a@.take(b@.len() as int) == a@);
        }
    }
    r
}

/// Whether the characters `s` are those of `word`.
pub fn is_word(s: &[char], word: &str) -> (r: bool)
    ensures
        r == (s@ == word@),
{
    let w = chars_of(word);
    same_chars(s, &w)
}

/// A number that is read is written in digits alone, behind at most a plus
/// sign, and one more digit behind it makes it ten times as large, and the
/// digit.
pub proof fn numbers_are_digits(s: Seq<char>, c: char, max: int)
    requires
        max >= 0,
    ensures
        read_unsigned(s, max) matches Ok(v) ==> {
            &&& 0 <= v <= max
            &&& s.len() > 0
            &&& '0' <= s.last() <= '9'
            &&& forall|i: int|
                0 <= i < s.len() ==> '0' <= #[trigger] s[i] <= '9' || (i == 0 && s[i] == '+')
            &&& read_unsigned(s.push(c), max) == if !('0' <= c <= '9') {
                Err::<int, NumberError>(NumberError::InvalidDigit)
            } else if 10 * v + (c as int - 48) > max {
                Err::<int, NumberError>(NumberError::TooLarge)
            } else {
                Ok::<int, NumberError>(10 * v + (c as int - 48))
            }
        },
        '0' <= c <= '9' && c as int - 48 <= max ==> read_unsigned(seq![c], max) == Ok::<int, NumberError>(
            c as int - 48,
        ),
        read_unsigned(Seq::empty(), max) is Err,
{
    let digits = if s.len() > 0 && s[0] == '+' {
        s.skip(1)
    } else {
        s
    };
    if read_unsigned(s, max) is Ok {
        read_digits_at_most(digits, max);
        read_digits_are_digits(digits, max);
        assert forall|i: int| 0 <= i < s.len() implies '0' <= #[trigger] s[i] <= '9' || (i == 0 && s[i]
            == '+') by {
            if s[0] == '+' {
                if i > 0 {
                    assert(digits[i - 1] == s[i]);
                }
            } else {
                assert(digits[i] == s[i]);
            }
        }
        let more = s.push(c);
        assert(more[0] == s[0]);
        if s[0] == '+' {
            assert(s.len() > 1);
            assert(more.skip(1) == digits.push(c));
            assert(s.last() == digits.last());
            assert(digits[digits.len() - 1] == digits.last());
        } else {
            assert(digits[digits.len() - 1] == s.last());
        }
        assert(digits.push(c).drop_last() == digits);
    }
    let one = seq![c];
    assert(one.drop_last() == Seq::<char>::empty());
    assert(read_digits(one.drop_last(), max) == Ok::<int, NumberError>(0));
}

/// What is read as digits is digits.
proof fn read_digits_are_digits(s: Seq<char>, max: int)
    ensures
        read_digits(s, max) is Ok ==> forall|i: int| 0 <= i < s.len() ==> '0' <= #[trigger] s[i] <= '9',
    decreases s.len(),
{
    if s.len() > 0 {
        let rest = s.drop_last();
        read_digits_are_digits(rest, max);
        if read_digits(s, max) is Ok {
            assert forall|i: int| 0 <= i < s.len() implies '0' <= #[trigger] s[i] <= '9' by {
                if i < rest.len() {
                    assert(rest[i] == s[i]);
                }
            }
        }
    }
}

/// Three pieces with separators between them are told apart, and nothing else
/// is split into these pieces.
pub proof fn three_pieces<T>(s: Seq<T>, a: Seq<T>, b: Seq<T>, c: Seq<T>, sep: T)
    ensures
        split_on(s, sep).len() == 3 ==> s == split_on(s, sep)[0].push(sep) + split_on(s, sep)[1].push(sep)
            + split_on(s, sep)[2],
        !a.contains(sep) && !b.contains(sep) && !c.contains(sep) ==> split_on(
            a.push(sep) + b.push(sep) + c,
            sep,
        ) == seq![a, b, c],
    decreases c.len(),
{
    let pieces = split_on(s, sep);
    if pieces.len() == 3 {
        split_then_join(s, sep);
        let two = pieces.drop_last();
        let one = two.drop_last();
        assert(one[0] == pieces[0] && two[1] == pieces[1]);
        assert(join_with(one, sep) == pieces[0]);
        assert(join_with(two, sep) == pieces[0].push(sep) + pieces[1]);
        assert(join_with(pieces, sep) == (pieces[0].push(sep) + pieces[1]).push(sep) + pieces[2]);
        assert((pieces[0].push(sep) + pieces[1]).push(sep) == pieces[0].push(sep) + pieces[1].push(sep));
    }
    if !a.contains(sep) && !b.contains(sep) && !c.contains(sep) {
        let whole = a.push(sep) + b.push(sep) + c;
        if c.len() == 0 {
            split_pair(a, b, sep);
            assert(whole.drop_last() == a.push(sep) + b);
            assert(c == Seq::<T>::empty());
            assert(split_on(whole, sep) == seq![a, b].push(c));
        } else {
            let rest = c.drop_last();
            assert(!rest.contains(sep)) by {
                assert forall|i: int| 0 <= i < rest.len() implies rest[i] != sep by {
                    assert(c.contains(c[i]));
                }
            }
            three_pieces(whole, a, b, rest, sep);
            assert(whole.drop_last() == a.push(sep) + b.push(sep) + rest);
            assert(c.contains(c.last()));
            assert(rest.push(c.last()) == c);
            assert(split_on(whole, sep) =~= seq![a, b, c]);
        }
    }
}

/// Trimming takes white space off the two ends and nothing else: what is left
/// stands in the text between two runs of white space, and begins and ends
/// with no white space itself.
pub proof fn trimming_takes_white_space_off(s: Seq<char>)
    ensures
        exists|a: int, b: int| #[trigger]
            trims_to(s, a, b) && trimmed(s) == s.subrange(a, b),
        trimmed(s).len() > 0 ==> !is_space(trimmed(s)[0]) && !is_space(trimmed(s).last()),
{
    let front = trim_front(s);
    trim_front_is_a_suffix(s);
    trim_back_is_a_prefix(front);
    let a = s.len() - front.len();
    let b = a + trimmed(s).len();
    assert(trimmed(s) =~= s.subrange(a, b));
    assert forall|i: int| b <= i < s.len() implies is_space(#[trigger] s[i]) by {
        assert(front[i - a] == s[i]);
    }
    assert(trims_to(s, a, b));
    if trimmed(s).len() > 0 {
        assert(trimmed(s)[0] == front[0]);
    }
}

/// From `a` to `b` is what is left without the white space around it.
pub open spec fn trims_to(s: Seq<char>, a: int, b: int) -> bool {
    &&& 0 <= a <= b <= s.len()
    &&& forall|i: int| 0 <= i < a ==> is_space(#[trigger] s[i])
    &&& forall|i: int| b <= i < s.len() ==> is_space(#[trigger] s[i])
}

/// What is left without white space in front is the end of the text.
proof fn trim_front_is_a_suffix(s: Seq<char>)
    ensures
        trim_front(s).len() <= s.len(),
        trim_front(s) == s.skip(s.len() - trim_front(s).len()),
        forall|i: int| 0 <= i < s.len() - trim_front(s).len() ==> is_space(#[trigger] s[i]),
        trim_front(s).len() > 0 ==> !is_space(trim_front(s)[0]),
    decreases s.len(),
{
    if s.len() > 0 && is_space(s[0]) {
        let rest = s.skip(1);
        trim_front_is_a_suffix(rest);
        assert forall|i: int| 0 <= i < s.len() - trim_front(s).len() implies is_space(#[trigger] s[i]) by {
            if i > 0 {
                assert(rest[i - 1] == s[i]);
            }
        }
        assert(trim_front(s) =~= s.skip(s.len() - trim_front(s).len()));
    } else {
        assert(s.skip(0) =~= s);
    }
}

/// What is left without white space behind is the beginning of the text.
proof fn trim_back_is_a_prefix(s: Seq<char>)
    ensures
        trim_back(s).len() <= s.len(),
        trim_back(s) == s.take(trim_back(s).len() as int),
        forall|i: int| trim_back(s).len() <= i < s.len() ==> is_space(#[trigger] s[i]),
        trim_back(s).len() > 0 ==> !is_space(trim_back(s).last()),
    decreases s.len(),
{
    if s.len() > 0 && is_space(s.last()) {
        let rest = s.drop_last();
        trim_back_is_a_prefix(rest);
        assert forall|i: int| trim_back(s).len() <= i < s.len() implies is_space(#[trigger] s[i]) by {
            if i < rest.len() {
                assert(rest[i] == s[i]);
            }
        }
        assert(trim_back(s) =~= s.take(trim_back(s).len() as int));
    } else {
        assert(s.take(s.len() as int) =~= s);
    }
}

/// The first piece is what stands before the first separator, or everything
/// where there is none.
pub proof fn first_piece_ends_at_the_mark<T>(s: Seq<T>, sep: T, first: int)
    requires
        0 <= first <= s.len(),
        forall|i: int| #![trigger s[i]] 0 <= i < first ==> s[i] != sep,
        first < s.len() ==> s[first] == sep,
    ensures
        split_on(s, sep)[0] == s.take(first),
        split_on(s, sep).len() == 1 <==> first == s.len(),
        split_on(s, sep).len() >= 1,
    decreases s.len(),
{
    if s.len() > 0 {
        let rest = s.drop_last();
        let mark = if first < rest.len() {
            first
        } else {
            rest.len() as int
        };
        assert(forall|i: int| #![trigger rest[i]] 0 <= i < rest.len() ==> rest[i] == s[i]);
        first_piece_ends_at_the_mark(rest, sep, mark);
        assert(s[s.len() - 1] == s.last());
        if first == s.len() {
            assert(split_on(s, sep)[0] =~= s.take(first));
        } else {
            assert(rest.take(mark) =~= s.take(first));
        }
    } else {
        assert(s.take(first) =~= Seq::<T>::empty());
    }
}

/// A list holds its items in order, with the separator between two of them and
/// nowhere else.
pub proof fn items_are_listed(items: Seq<Seq<char>>, item: Seq<char>, sep: Seq<char>)
    ensures
        listed_with(Seq::empty(), sep) == Seq::<char>::empty(),
        listed_with(seq![item], sep) == item,
        items.len() > 0 ==> listed_with(items.push(item), sep) == listed_with(items, sep) + sep + item,
{
    assert(items.push(item).drop_last() == items);
}

/// White space is what Unicode calls so: tab, line feed, vertical tab, form
/// feed, carriage return and space, and nine ranges beyond ASCII; letters,
/// digits and marks of ASCII are not.
pub proof fn white_space_is_known(c: char)
    ensures
        c == ' ' || c == '\t' || c == '\n' || c == '\r' || c as int == 0x0B || c as int == 0x0C ==> is_space(
            c,
        ),
        0x21 <= c as int <= 0x7F ==> !is_space(c),
        c as int <= 0x08 || 0x0E <= c as int <= 0x1F ==> !is_space(c),
        is_space(c) && c as int > 0x7F <==> c as int == 0x85 || c as int == 0xA0 || c as int == 0x1680
            || 0x2000 <= c as int <= 0x200A || c as int == 0x2028 || c as int == 0x2029 || c as int
            == 0x202F || c as int == 0x205F || c as int == 0x3000,
{
}

/// Words are what stands between white space: a word behind a space is one
/// more, a space behind adds none, and a text without spaces is one word.
pub proof fn words_stand_between_spaces(before: Seq<char>, space: char, word: Seq<char>)
    requires
        is_space(space),
        forall|i: int| #![trigger word[i]] 0 <= i < word.len() ==> !is_space(word[i]),
    ensures
        words(Seq::empty()) == Seq::<Seq<char>>::empty(),
        words(before.push(space)) == words(before),
        word.len() > 0 ==> words(before.push(space) + word) == words(before).push(word),
        word.len() > 0 ==> words(word) == seq![word],
    decreases word.len(),
{
    assert(before.push(space).drop_last() == before);
    if word.len() > 0 {
        let rest = word.drop_last();
        let all = before.push(space) + word;
        assert(forall|i: int| #![trigger rest[i]] 0 <= i < rest.len() ==> rest[i] == word[i]);
        words_stand_between_spaces(before, space, rest);
        assert(word[word.len() - 1] == word.last());
        assert(all.drop_last() == before.push(space) + rest);
        assert(all.last() == word.last());
        if rest.len() == 0 {
            assert(all[all.len() - 2] == space);
            assert(all.drop_last() == before.push(space));
            assert(word == seq![word.last()]);
            assert(rest == Seq::<char>::empty());
        } else {
            assert(all[all.len() - 2] == word[word.len() - 2]);
            assert(rest.push(word.last()) == word);
            assert(words(all) =~= words(before).push(word));
            assert(words(word) =~= seq![word]);
        }
    }
}

/// The pieces of a text, one more separator and a piece are the pieces of the
/// text and that piece.
pub proof fn one_more_piece<T>(s: Seq<T>, piece: Seq<T>, sep: T)
    requires
        !piece.contains(sep),
    ensures
        split_on(s.push(sep) + piece, sep) == split_on(s, sep).push(piece),
    decreases piece.len(),
{
    let all = s.push(sep) + piece;
    if piece.len() == 0 {
        assert(all.drop_last() == s);
        assert(piece == Seq::<T>::empty());
    } else {
        let rest = piece.drop_last();
        assert(!rest.contains(sep)) by {
            assert forall|i: int| 0 <= i < rest.len() implies rest[i] != sep by {
                assert(piece.contains(piece[i]));
            }
        }
        one_more_piece(s, rest, sep);
        assert(all.drop_last() == s.push(sep) + rest);
        assert(piece.contains(piece.last()));
        assert(rest.push(piece.last()) == piece);
        assert(split_on(all, sep) =~= split_on(s, sep).push(piece));
    }
}

/// A number is written without a zero in front, and one more digit behind it
/// writes ten times the number and the digit.
pub proof fn numbers_are_written_plainly(n: nat, digit: nat)
    requires
        digit < 10,
    ensures
        decimal(digit) == seq![(48 + digit) as char],
        n > 0 ==> decimal(n)[0] != '0',
        n > 0 ==> decimal(10 * n + digit) == decimal(n).push((48 + digit) as char),
    decreases n,
{
    if n >= 10 {
        numbers_are_written_plainly(n / 10, n % 10);
        assert(decimal(n / 10).len() >= 1) by {
            decimal_reads_back(n / 10, n as int);
        }
        assert(decimal(n)[0] == decimal(n / 10)[0]);
    }
}

/// What is read as digits is digits, and no more than the most.
pub proof fn digits_are_digits(s: Seq<char>, max: int)
    ensures
        max >= 0 ==> (read_digits(s, max) matches Ok(v) ==> 0 <= v <= max),
        read_digits(s, max) is Ok ==> forall|i: int| 0 <= i < s.len() ==> '0' <= #[trigger] s[i] <= '9',
    decreases s.len(),
{
    read_digits_are_digits(s, max);
    if s.len() > 0 {
        digits_are_digits(s.drop_last(), max);
    }
}

/// Each reason why a number could not be read has its words.
pub proof fn reasons_have_their_words(reason: NumberError)
    ensures
        reason == NumberError::Empty ==> reason.message_spec() == "cannot parse integer from empty string"@,
        reason == NumberError::InvalidDigit ==> reason.message_spec() == "invalid digit found in string"@,
        reason == NumberError::TooLarge ==> reason.message_spec()
            == "number too large to fit in target type"@,
        reason == NumberError::TooSmall ==> reason.message_spec()
            == "number too small to fit in target type"@,
{
}

/// A text begins or ends with another exactly if the characters at that end are
/// those of the other.
pub proof fn ends_are_told<T>(s: Seq<T>, part: Seq<T>, rest: Seq<T>)
    ensures
        has_prefix(part + rest, part),
        has_suffix(rest + part, part),
        has_prefix(s, part) ==> s == part + s.skip(part.len() as int),
        has_suffix(s, part) ==> s == s.take(s.len() - part.len()) + part,
        s.len() < part.len() ==> !has_prefix(s, part) && !has_suffix(s, part),
{
    assert((part + rest).take(part.len() as int) == part);
    assert((rest + part).skip(rest.len() as int) == part);
    if has_prefix(s, part) {
        assert(s == s.take(part.len() as int) + s.skip(part.len() as int));
    }
    if has_suffix(s, part) {
        assert(s == s.take(s.len() - part.len()) + s.skip(s.len() - part.len()));
    }
}

} // verus!
