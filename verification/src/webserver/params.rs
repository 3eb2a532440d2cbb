//! Parameters of a request, and how they are shown in messages.
use vstd::prelude::*;

use crate::text;

verus! {

/// Names and values, as characters.
pub type Entries = Seq<(Seq<char>, Seq<char>)>;

/// The characters of names and values.
pub open spec fn entries(pairs: Seq<(String, String)>) -> Entries {
    pairs.map_values(|p: (String, String)| (p.0@, p.1@))
}

/// The names and values of a form, percent-decoded, in order.
pub uninterp spec fn form_parsed(input: Seq<u8>) -> Seq<(Seq<char>, Seq<char>)>;

/// How a text is shown in quotes, with what cannot be shown escaped.
pub uninterp spec fn quoted(s: Seq<char>) -> Seq<char>;

/// `url::form_urlencoded::parse`, which splits a form at `&` and `=` and
/// decodes names and values. It depends on the bytes alone.
#[verifier::external_body]
fn parse_form(input: &[u8]) -> (r: Vec<(String, String)>)
    ensures
        entries(r@) == form_parsed(input@),
{
    url::form_urlencoded::parse(input).into_owned().collect()
}

/// `format!` with `{:?}`, the form of `Debug`, on a text.
#[verifier::external_body]
fn quote(s: &str) -> (r: String)
    ensures
        r@ == quoted(s@),
{
    format!("{s:?}")
}

/// The value under `key`, the last one where there are several.
pub open spec fn value_of(p: Entries, key: Seq<char>) -> Option<Seq<char>>
    decreases p.len(),
{
    if p.len() == 0 {
        None
    } else if p.last().0 == key {
        Some(p.last().1)
    } else {
        value_of(p.drop_last(), key)
    }
}

/// All but what is under `key`.
pub open spec fn without(p: Entries, key: Seq<char>) -> Entries
    decreases p.len(),
{
    if p.len() == 0 {
        p
    } else if p.last().0 == key {
        without(p.drop_last(), key)
    } else {
        without(p.drop_last(), key).push(p.last())
    }
}

/// The names, each once, in the order in which they come first.
pub open spec fn names(p: Entries) -> Seq<Seq<char>>
    decreases p.len(),
{
    if p.len() == 0 {
        Seq::empty()
    } else if value_of(p.drop_last(), p.last().0) is Some {
        names(p.drop_last())
    } else {
        names(p.drop_last()).push(p.last().0)
    }
}

/// Texts in quotes, with commas between them.
pub open spec fn listed(items: Seq<Seq<char>>) -> Seq<char>
    decreases items.len(),
{
    if items.len() == 0 {
        Seq::empty()
    } else if items.len() == 1 {
        quoted(items[0])
    } else {
        listed(items.drop_last()) + ", "@ + quoted(items.last())
    }
}

/// The names as a list.
pub open spec fn name_list(p: Entries) -> Seq<char> {
    "["@ + listed(names(p)) + "]"@
}

/// Names with their values in quotes, with commas between them.
pub open spec fn pairs_listed(p: Entries, keys: Seq<Seq<char>>) -> Seq<char>
    decreases keys.len(),
{
    if keys.len() == 0 {
        Seq::empty()
    } else {
        let pair = quoted(keys.last()) + ": "@ + quoted(value_of(p, keys.last())->0);
        if keys.len() == 1 {
            pair
        } else {
            pairs_listed(p, keys.drop_last()) + ", "@ + pair
        }
    }
}

/// The names with their values.
pub open spec fn pair_list(p: Entries) -> Seq<char> {
    "{"@ + pairs_listed(p, names(p)) + "}"@
}

/// A value that was removed is gone, and the other values stay.
pub proof fn removed_values_are_gone(p: Entries, key: Seq<char>, other: Seq<char>)
    ensures
        value_of(without(p, key), key) is None,
        other != key ==> value_of(without(p, key), other) == value_of(p, other),
    decreases p.len(),
{
    if p.len() > 0 {
        removed_values_are_gone(p.drop_last(), key, other);
        if p.last().0 != key {
            assert(without(p, key).drop_last() == without(p.drop_last(), key));
        }
    }
}

/// Every name that is listed has a value.
pub proof fn names_have_values(p: Entries, i: int)
    requires
        0 <= i < names(p).len(),
    ensures
        value_of(p, names(p)[i]) is Some,
    decreases p.len(),
{
    let rest = p.drop_last();
    if i < names(rest).len() {
        names_have_values(rest, i);
        assert(names(p)[i] == names(rest)[i]);
    }
}

/// The parameters of a request.
#[derive(Debug)]
pub struct Params {
    /// Names and values, in the order in which they came.
    pub pairs: Vec<(String, String)>,
}

impl View for Params {
    type V = Entries;

    open spec fn view(&self) -> Entries {
        entries(self.pairs@)
    }
}

impl Params {
    /// The parameters in a form.
    pub fn from_form(input: &[u8]) -> (r: Self)
        ensures
            r@ == form_parsed(input@),
    {
        Params { pairs: parse_form(input) }
    }

    /// The parameters in the query of a request, none where it has no query.
    pub fn from_query(query: Option<&str>) -> (r: Self)
        ensures
            r@ == match query {
                Some(q) => form_parsed(vstd::utf8::encode_utf8(q@)),
                None => Seq::empty(),
            },
    {
        match query {
            Some(q) => Params::from_form(q.as_bytes()),
            None => Params { pairs: Vec::new() },
        }
    }

    /// The value under `key`.
    pub fn get(&self, key: &str) -> (r: Option<String>)
        ensures
            match r {
                Some(v) => value_of(self@, key@) == Some(v@),
                None => value_of(self@, key@) is None,
            },
    {
        let mut i: usize = self.pairs.len();
        proof {
            assert(self@.take(i as int) == self@);
        }
        while i > 0
            invariant
                i <= self.pairs@.len(),
                value_of(self@, key@) == value_of(self@.take(i as int), key@),
            decreases i,
        {
            i = i - 1;
            proof {
                assert(self@.take(i + 1).drop_last() == self@.take(i as int));
                assert(self@.take(i + 1).last() == (self.pairs@[i as int].0@, self.pairs@[i as int].1@));
            }
            if text::same_text(self.pairs[i].0.as_str(), key) {
                return Some(self.pairs[i].1.clone());
            }
        }
        None
    }

    /// Whether there is a value under `key`.
    pub fn contains_key(&self, key: &str) -> (r: bool)
        ensures
            r == (value_of(self@, key@) is Some),
    {
        match self.get(key) {
            Some(_) => true,
            None => false,
        }
    }

    /// Takes the value under `key` out.
    pub fn remove(&mut self, key: &str) -> (r: Option<String>)
        ensures
            match r {
                Some(v) => value_of(old(self)@, key@) == Some(v@),
                None => value_of(old(self)@, key@) is None,
            },
            final(self)@ == without(old(self)@, key@),
    {
        let r = self.get(key);
        let mut kept: Vec<(String, String)> = Vec::new();
        let mut i: usize = 0;
        while i < self.pairs.len()
            invariant
                i <= self.pairs@.len(),
                entries(kept@) == without(self@.take(i as int), key@),
            decreases self.pairs@.len() - i,
        {
            proof {
                assert(self@.take(i + 1).drop_last() == self@.take(i as int));
                assert(self@.take(i + 1).last() == (self.pairs@[i as int].0@, self.pairs@[i as int].1@));
            }
            if !text::same_text(self.pairs[i].0.as_str(), key) {
                let ghost before = entries(kept@);
                kept.push((self.pairs[i].0.clone(), self.pairs[i].1.clone()));
                assert(entries(kept@) == before.push((self.pairs@[i as int].0@, self.pairs@[i as int].1@)));
            }
            i = i + 1;
        }
        assert(self@.take(self@.len() as int) == self@);
        self.pairs = kept;
        r
    }

    /// The names, each once; see [`names`].
    fn name_texts(&self) -> (r: Vec<String>)
        ensures
            text::texts(r@) == names(self@),
    {
        let mut r: Vec<String> = Vec::new();
        let mut i: usize = 0;
        while i < self.pairs.len()
            invariant
                i <= self.pairs@.len(),
                text::texts(r@) == names(self@.take(i as int)),
            decreases self.pairs@.len() - i,
        {
            let ghost here = self@.take(i as int);
            proof {
                assert(self@.take(i + 1).drop_last() == here);
                assert(self@.take(i + 1).last().0 == self.pairs@[i as int].0@);
                assert(here.take(i as int) == here);
            }
            let name = self.pairs[i].0.as_str();
            let mut seen: bool = false;
            let mut j: usize = i;
            while !seen && j > 0
                invariant
                    j <= i <= self.pairs@.len(),
                    here == self@.take(i as int),
                    !seen ==> value_of(here, name@) == value_of(here.take(j as int), name@),
                    seen ==> value_of(here, name@) is Some,
                decreases j + (if seen { 0int } else { 1 }),
            {
                j = j - 1;
                proof {
                    assert(here.take(j + 1).drop_last() == here.take(j as int));
                    assert(here.take(j + 1).last().0 == self.pairs@[j as int].0@);
                }
                if text::same_text(self.pairs[j].0.as_str(), name) {
                    seen = true;
                }
            }
            if !seen {
                let ghost before = text::texts(r@);
                r.push(self.pairs[i].0.clone());
                assert(text::texts(r@) == before.push(name@));
            }
            i = i + 1;
        }
        assert(self@.take(self@.len() as int) == self@);
        r
    }

    /// The names as a list; see [`name_list`].
    pub fn names_shown(&self) -> (r: String)
        ensures
            r@ == name_list(self@),
    {
        let keys = self.name_texts();
        let ghost all = text::texts(keys@);
        let mut inner = String::new();
        let mut i: usize = 0;
        while i < keys.len()
            invariant
                i <= keys@.len(),
                all == text::texts(keys@),
                inner@ == listed(all.take(i as int)),
            decreases keys@.len() - i,
        {
            proof {
                assert(all.take(i + 1).drop_last() == all.take(i as int));
                assert(all.take(i + 1).last() == keys@[i as int]@);
            }
            let shown = quote(keys[i].as_str());
            if i > 0 {
                inner.append(", ");
                inner.append(shown.as_str());
            } else {
                inner = shown;
            }
            i = i + 1;
        }
        assert(all.take(all.len() as int) == all);
        let mut r = text::joined("[", inner.as_str());
        r.append("]");
        r
    }

    /// The names with their values; see [`pair_list`].
    pub fn pairs_shown(&self) -> (r: String)
        ensures
            r@ == pair_list(self@),
    {
        let keys = self.name_texts();
        let ghost all = text::texts(keys@);
        let mut inner = String::new();
        let mut i: usize = 0;
        while i < keys.len()
            invariant
                i <= keys@.len(),
                all == text::texts(keys@),
                all == names(self@),
                inner@ == pairs_listed(self@, all.take(i as int)),
            decreases keys@.len() - i,
        {
            proof {
                assert(all.take(i + 1).drop_last() == all.take(i as int));
                assert(all.take(i + 1).last() == keys@[i as int]@);
                assert(all[i as int] == keys@[i as int]@);
                names_have_values(self@, i as int);
            }
            let name = quote(keys[i].as_str());
            let mut pair = text::joined(name.as_str(), ": ");
            if let Some(v) = self.get(keys[i].as_str()) {
                let value = quote(v.as_str());
                pair.append(value.as_str());
            }
            if i > 0 {
                inner.append(", ");
                inner.append(pair.as_str());
            } else {
                inner = pair;
            }
            i = i + 1;
        }
        assert(all.take(all.len() as int) == all);
        let mut r = text::joined("{", inner.as_str());
        r.append("}");
        r
    }

    /// Takes the value under `key` out; where there is none, says that it was
    /// expected and what there is instead, behind `expected`.
    pub fn require(&mut self, key: &str, expected: &str) -> (r: Result<String, String>)
        ensures
            final(self)@ == without(old(self)@, key@),
            match r {
                Ok(v) => value_of(old(self)@, key@) == Some(v@),
                Err(e) => value_of(old(self)@, key@) is None && e@ == missing(
                    expected@,
                    without(old(self)@, key@),
                ),
            },
    {
        match self.remove(key) {
            Some(v) => Ok(v),
            None => {
                let names = self.names_shown();
                let mut e = text::joined(expected, names.as_str());
                e.append(".");
                Err(e)
            },
        }
    }
}

/// What is said where a value is missing.
pub open spec fn missing(expected: Seq<char>, rest: Entries) -> Seq<char> {
    expected + name_list(rest) + "."@
}

/// The value under a name is that of the last entry of this name, and there is
/// none exactly where no entry has the name.
pub proof fn last_entry_counts(p: Entries, key: Seq<char>)
    ensures
        match value_of(p, key) {
            Some(v) => exists|i: int|
                0 <= i < p.len() && #[trigger] p[i] == (key, v) && (forall|j: int|
                    i < j < p.len() ==> (#[trigger] p[j]).0 != key),
            None => forall|j: int| 0 <= j < p.len() ==> (#[trigger] p[j]).0 != key,
        },
    decreases p.len(),
{
    if p.len() > 0 {
        let rest = p.drop_last();
        last_entry_counts(rest, key);
        assert(forall|j: int| 0 <= j < rest.len() ==> rest[j] == p[j]);
        if p.last().0 == key {
            assert(p[p.len() - 1] == (key, p.last().1));
        } else if value_of(p, key) is Some {
            let v = value_of(p, key)->0;
            let i = choose|i: int|
                0 <= i < rest.len() && #[trigger] rest[i] == (key, v) && (forall|j: int|
                    i < j < rest.len() ==> (#[trigger] rest[j]).0 != key);
            assert(p[i] == (key, v));
            assert forall|j: int| i < j < p.len() implies (#[trigger] p[j]).0 != key by {
                if j < rest.len() {
                    assert(rest[j].0 != key);
                }
            }
        } else {
            assert forall|j: int| 0 <= j < p.len() implies (#[trigger] p[j]).0 != key by {
                if j < rest.len() {
                    assert(rest[j].0 != key);
                }
            }
        }
    }
}

/// The names are those under which there is a value, each once; one more entry
/// adds its name at the end, unless it is there already.
pub proof fn every_name_is_listed(p: Entries, entry: (Seq<char>, Seq<char>), key: Seq<char>)
    ensures
        names(p).contains(key) <==> exists|i: int| 0 <= i < p.len() && (#[trigger] p[i]).0 == key,
        names(p).no_duplicates(),
        names(p.push(entry)) == if exists|i: int| 0 <= i < p.len() && (#[trigger] p[i]).0 == entry.0 {
            names(p)
        } else {
            names(p).push(entry.0)
        },
    decreases p.len(),
{
    assert(p.push(entry).drop_last() == p);
    last_entry_counts(p, entry.0);
    last_entry_counts(p, key);
    if p.len() > 0 {
        let rest = p.drop_last();
        let last = p.len() - 1;
        every_name_is_listed(rest, entry, key);
        every_name_is_listed(rest, entry, p.last().0);
        last_entry_counts(rest, p.last().0);
        assert(p[last] == p.last());
        assert(forall|i: int| #![trigger p[i]] 0 <= i < last ==> p[i] == rest[i]);
        assert(forall|i: int| #![trigger rest[i]] 0 <= i < last ==> p[i] == rest[i]);
        let before = names(rest);
        if value_of(rest, p.last().0) is None {
            let all = before.push(p.last().0);
            assert(all[before.len() as int] == p.last().0);
            if before.contains(key) {
                let k = choose|k: int| 0 <= k < before.len() && before[k] == key;
                assert(all[k] == key);
            }
            if all.contains(key) {
                let k = choose|k: int| 0 <= k < all.len() && all[k] == key;
                if k < before.len() {
                    assert(before[k] == key);
                }
            }
            assert(!before.contains(p.last().0));
        }
    }
}

/// Names and pairs are shown in brackets, each in quotes, with commas between
/// them; where a value is missing the names that are there are told.
pub proof fn lists_are_shown(
    p: Entries,
    items: Seq<Seq<char>>,
    item: Seq<char>,
    expected: Seq<char>,
)
    ensures
        listed(Seq::empty()) == Seq::<char>::empty(),
        listed(seq![item]) == quoted(item),
        items.len() > 0 ==> listed(items.push(item)) == listed(items) + ", "@ + quoted(item),
        pairs_listed(p, Seq::empty()) == Seq::<char>::empty(),
        pairs_listed(p, seq![item]) == quoted(item) + ": "@ + quoted(value_of(p, item)->0),
        items.len() > 0 ==> pairs_listed(p, items.push(item)) == pairs_listed(p, items) + ", "@ + (quoted(
            item,
        ) + ": "@ + quoted(value_of(p, item)->0)),
        name_list(p) == "["@ + listed(names(p)) + "]"@,
        pair_list(p) == "{"@ + pairs_listed(p, names(p)) + "}"@,
        missing(expected, p) == expected + ("["@ + listed(names(p)) + "]"@) + "."@,
{
    assert(items.push(item).drop_last() == items);
}

/// What is left without a name is everything else, in order.
pub proof fn other_entries_stay(p: Entries, entry: (Seq<char>, Seq<char>), key: Seq<char>)
    ensures
        without(Seq::empty(), key) == Seq::<(Seq<char>, Seq<char>)>::empty(),
        without(p.push(entry), key) == if entry.0 == key {
            without(p, key)
        } else {
            without(p, key).push(entry)
        },
{
    assert(p.push(entry).drop_last() == p);
}

} // verus!
