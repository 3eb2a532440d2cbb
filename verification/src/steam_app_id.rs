//! Finding the Steam app id that a process belongs to.
//!
//! A window names its process; the app id stands on the command line of that
//! process or of one of its ancestors. Reading `/proc` is left to the caller:
//! this module parses what was read, caches what was found and decides which
//! process to look at next.
use vstd::prelude::*;
use vstd::string::StringSliceAdditionalSpecFns;

use crate::text;

verus! {

// ---------------------------------------------------------------------------
// Command lines
// ---------------------------------------------------------------------------

/// Whether `b` is white space in ASCII.
pub open spec fn is_ascii_space(b: u8) -> bool {
    b == 0x20 || b == 0x09 || b == 0x0A || b == 0x0C || b == 0x0D
}

/// `s` without the white space at its beginning.
pub open spec fn trim_start(s: Seq<u8>) -> Seq<u8>
    decreases s.len(),
{
    if s.len() > 0 && is_ascii_space(s[0]) {
        trim_start(s.skip(1))
    } else {
        s
    }
}

/// `s` without the white space at its end.
pub open spec fn trim_end(s: Seq<u8>) -> Seq<u8>
    decreases s.len(),
{
    if s.len() > 0 && is_ascii_space(s.last()) {
        trim_end(s.drop_last())
    } else {
        s
    }
}

/// Each byte as the character of the same number.
pub open spec fn byte_chars(s: Seq<u8>) -> Seq<char> {
    s.map_values(|b: u8| b as char)
}

/// The app id that a field holds: a decimal number that fits 32 bits, with
/// white space around it ignored. 0 stands for no app id.
pub open spec fn field_app_id(field: Seq<u8>) -> int {
    match text::read_unsigned(byte_chars(trim_end(trim_start(field))), u32::MAX as int) {
        Ok(v) => v,
        Err(_) => 0,
    }
}

/// The first app id other than 0 among `fields`, else 0.
pub open spec fn first_app_id(fields: Seq<Seq<u8>>) -> int
    decreases fields.len(),
{
    if fields.len() == 0 {
        0
    } else {
        let before = first_app_id(fields.drop_last());
        if before != 0 {
            before
        } else {
            field_app_id(fields.last())
        }
    }
}

/// How far a scan of a command line has come.
pub struct Scan {
    /// `SteamLaunch` has been met.
    pub launch: bool,
    /// The app id found so far, or 0.
    pub app_id: int,
    /// The scan is over, whatever follows.
    pub done: bool,
}

/// The app id named by an argument that begins with `AppId=`, else 0.
pub open spec fn argument_app_id(part: Seq<u8>) -> int {
    if text::has_prefix(part, "AppId=".spec_bytes()) {
        field_app_id(part.skip("AppId=".spec_bytes().len() as int))
    } else {
        0
    }
}

/// The app id named by an argument that begins with `--appids=`, else 0.
pub open spec fn list_app_id(part: Seq<u8>) -> int {
    if text::has_prefix(part, "--appids=".spec_bytes()) {
        first_app_id(text::split_on(part.skip("--appids=".spec_bytes().len() as int), 0x2Cu8))
    } else {
        0
    }
}

/// The scan after one more argument. An `--appids=` list and an `AppId=` that
/// follows `SteamLaunch` settle it; an `AppId=` elsewhere is remembered.
pub open spec fn scan_step(scan: Scan, part: Seq<u8>) -> Scan {
    let listed = list_app_id(part);
    let named = argument_app_id(part);
    if scan.done {
        scan
    } else if text::has_prefix(part, "--appids=".spec_bytes()) && (listed != 0 || scan.app_id != 0) {
        Scan { app_id: if listed != 0 { listed } else { scan.app_id }, done: true, ..scan }
    } else if part == "SteamLaunch".spec_bytes() {
        Scan {
            launch: true,
            app_id: if scan.app_id == 0 { named } else { scan.app_id },
            ..scan
        }
    } else if scan.launch && named != 0 {
        Scan { app_id: named, done: true, ..scan }
    } else if scan.app_id == 0 {
        Scan { app_id: named, ..scan }
    } else {
        scan
    }
}

/// The scan after all of `parts`.
pub open spec fn scan_parts(parts: Seq<Seq<u8>>) -> Scan
    decreases parts.len(),
{
    if parts.len() == 0 {
        Scan { launch: false, app_id: 0, done: false }
    } else {
        scan_step(scan_parts(parts.drop_last()), parts.last())
    }
}

/// The app id that a command line, its arguments separated by zero bytes,
/// names; 0 when it names none.
pub open spec fn cmdline_app_id(cmdline: Seq<u8>) -> int {
    scan_parts(text::split_on(cmdline, 0u8)).app_id
}

/// `s` without white space at its two ends.
fn trim_ascii(s: &[u8]) -> (r: Vec<u8>)
    ensures
        r@ == trim_end(trim_start(s@)),
{
    let mut from: usize = 0;
    proof {
        assert(s@.skip(0) == s@);
    }
    while from < s.len() && (s[from] == 0x20 || s[from] == 0x09 || s[from] == 0x0A || s[from] == 0x0C
        || s[from] == 0x0D)
        invariant
            from <= s@.len(),
            trim_start(s@) == trim_start(s@.skip(from as int)),
        decreases s@.len() - from,
    {
        proof {
            assert(s@.skip(from as int).skip(1) == s@.skip(from + 1));
        }
        from += 1;
    }
    let ghost rest = s@.skip(from as int);
    let mut to: usize = s.len();
    proof {
        assert(trim_start(s@) == rest);
        assert(rest == s@.subrange(from as int, s@.len() as int));
    }
    while to > from && (s[to - 1] == 0x20 || s[to - 1] == 0x09 || s[to - 1] == 0x0A || s[to - 1] == 0x0C
        || s[to - 1] == 0x0D)
        invariant
            from <= to <= s@.len(),
            trim_end(rest) == trim_end(s@.subrange(from as int, to as int)),
        decreases to,
    {
        proof {
            assert(s@.subrange(from as int, to as int).drop_last() == s@.subrange(from as int, to - 1));
        }
        to -= 1;
    }
    text::sub_bytes(s, from, to)
}

/// Reads the app id that a field holds; see [`field_app_id`].
fn parse_app_id(field: &[u8]) -> (id: u32)
    ensures
        id as int == field_app_id(field@),
{
    let trimmed = trim_ascii(field);
    let mut chars: Vec<char> = Vec::new();
    let mut i: usize = 0;
    while i < trimmed.len()
        invariant
            i <= trimmed@.len(),
            chars@ == byte_chars(trimmed@.take(i as int)),
        decreases trimmed@.len() - i,
    {
        chars.push(trimmed[i] as char);
        i += 1;
        proof {
            assert(chars@ == byte_chars(trimmed@.take(i as int)));
        }
    }
    proof {
        assert(trimmed@.take(trimmed@.len() as int) == trimmed@);
    }
    match text::parse_unsigned(&chars, u32::MAX as u64) {
        Ok(v) => v as u32,
        Err(_) => 0,
    }
}

/// The first app id other than 0 in a comma-separated list.
fn parse_app_id_list(list: &[u8]) -> (id: u32)
    ensures
        id as int == first_app_id(text::split_on(list@, 0x2Cu8)),
{
    let fields = text::split_bytes(list, 0x2C);
    let ghost all = text::views(fields@);
    let mut id: u32 = 0;
    let mut i: usize = 0;
    while i < fields.len() && id == 0
        invariant
            i <= fields@.len(),
            all == text::views(fields@),
            id as int == first_app_id(all.take(i as int)),
        decreases fields@.len() - i,
    {
        proof {
            assert(all.take(i + 1).drop_last() == all.take(i as int));
            assert(all.take(i + 1).last() == fields@[i as int]@);
        }
        id = parse_app_id(&fields[i]);
        i += 1;
    }
    proof {
        if id != 0 {
            first_app_id_sticks(all, i as int);
        } else {
            assert(all.take(all.len() as int) == all);
        }
    }
    id
}

/// An app id found among the first fields stays the answer.
proof fn first_app_id_sticks(fields: Seq<Seq<u8>>, k: int)
    requires
        0 <= k <= fields.len(),
        first_app_id(fields.take(k)) != 0,
    ensures
        first_app_id(fields) == first_app_id(fields.take(k)),
    decreases fields.len(),
{
    if k == fields.len() {
        assert(fields.take(k) == fields);
    } else {
        assert(fields.drop_last().take(k) == fields.take(k));
        first_app_id_sticks(fields.drop_last(), k);
    }
}

/// A scan that is over is not changed by further arguments.
proof fn scan_done_sticks(parts: Seq<Seq<u8>>, k: int)
    requires
        0 <= k <= parts.len(),
        scan_parts(parts.take(k)).done,
    ensures
        scan_parts(parts) == scan_parts(parts.take(k)),
    decreases parts.len(),
{
    if k == parts.len() {
        assert(parts.take(k) == parts);
    } else {
        assert(parts.drop_last().take(k) == parts.take(k));
        scan_done_sticks(parts.drop_last(), k);
    }
}

/// The rest of `part` behind `prefix`.
fn behind(part: &[u8], prefix: &[u8]) -> (r: Vec<u8>)
    requires
        text::has_prefix(part@, prefix@),
    ensures
        r@ == part@.skip(prefix@.len() as int),
{
    let r = text::sub_bytes(part, prefix.len(), part.len());
    proof {
        assert(r@ == part@.skip(prefix@.len() as int));
    }
    r
}

/// Whether two byte strings are equal.
fn same_bytes(a: &[u8], b: &[u8]) -> (r: bool)
    ensures
        r == (a@ == b@),
{
    let r = a.len() == b.len() && text::starts_with_bytes(a, b);
    proof {
        if a@.len() == b@.len() {
            assert(a@.take(b@.len() as int) == a@);
        }
    }
    r
}

/// Scans a zero-separated command line for a Steam app id. Finds
/// `SteamLaunch` followed by `AppId=<N>`, a lone `AppId=<N>`, and
/// `--appids=<N>[,<N>...]`, the last also behind `--`. The line is taken as
/// bytes: it need not be valid text.
pub fn scan_cmdline_for_app_id(cmdline: &[u8]) -> (id: u32)
    ensures
        id as int == cmdline_app_id(cmdline@),
{
    let parts = text::split_bytes(cmdline, 0);
    let ghost all = text::views(parts@);
    let list_prefix = "--appids=".as_bytes();
    let name_prefix = "AppId=".as_bytes();
    let launch_word = "SteamLaunch".as_bytes();
    let mut launch = false;
    let mut app_id: u32 = 0;
    let mut i: usize = 0;
    while i < parts.len()
        invariant
            i <= parts@.len(),
            all == text::views(parts@),
            all == text::split_on(cmdline@, 0u8),
            list_prefix@ == "--appids=".spec_bytes(),
            name_prefix@ == "AppId=".spec_bytes(),
            launch_word@ == "SteamLaunch".spec_bytes(),
            scan_parts(all.take(i as int)) == (Scan { launch, app_id: app_id as int, done: false }),
        decreases parts@.len() - i,
    {
        let part: &[u8] = parts[i].as_slice();
        proof {
            assert(all.take(i + 1).drop_last() == all.take(i as int));
            assert(all.take(i + 1).last() == part@);
        }
        if text::starts_with_bytes(part, list_prefix) {
            let rest = behind(part, list_prefix);
            let listed = parse_app_id_list(&rest);
            if listed != 0 {
                proof {
                    scan_done_sticks(all, i + 1);
                }
                return listed;
            }
            if app_id != 0 {
                proof {
                    scan_done_sticks(all, i + 1);
                }
                return app_id;
            }
        }
        let named: u32 = if text::starts_with_bytes(part, name_prefix) {
            let rest = behind(part, name_prefix);
            parse_app_id(&rest)
        } else {
            0
        };
        if same_bytes(part, launch_word) {
            launch = true;
            if app_id == 0 {
                app_id = named;
            }
        } else if launch && named != 0 {
            proof {
                scan_done_sticks(all, i + 1);
            }
            return named;
        } else if app_id == 0 {
            app_id = named;
        }
        i += 1;
    }
    proof {
        assert(all.take(all.len() as int) == all);
    }
    app_id
}

/// A command line yields no app id exactly when none of its arguments names
/// one, in either form.
pub proof fn no_app_id_without_argument(parts: Seq<Seq<u8>>)
    ensures
        scan_parts(parts).app_id == 0 <==> forall|i: int|
            0 <= i < parts.len() ==> argument_app_id(#[trigger] parts[i]) == 0 && list_app_id(parts[i]) == 0,
        scan_parts(parts).done ==> scan_parts(parts).app_id != 0,
    decreases parts.len(),
{
    if parts.len() > 0 {
        let before = parts.drop_last();
        no_app_id_without_argument(before);
        assert forall|i: int| 0 <= i < before.len() implies before[i] == parts[i] by {}
        let part = parts.last();
        list_and_name_exclude(part);
        if scan_parts(parts).app_id == 0 {
            assert forall|i: int| 0 <= i < parts.len() implies argument_app_id(#[trigger] parts[i]) == 0
                && list_app_id(parts[i]) == 0 by {
                if i < before.len() {
                    assert(before[i] == parts[i]);
                }
            }
        } else if scan_parts(before).app_id == 0 {
            assert(argument_app_id(parts[parts.len() - 1]) != 0 || list_app_id(parts[parts.len() - 1]) != 0);
        } else {
            let i = choose|i: int|
                0 <= i < before.len() && !(argument_app_id(#[trigger] before[i]) == 0 && list_app_id(
                    before[i],
                ) == 0);
            assert(parts[i] == before[i]);
        }
    }
}

/// No argument has both forms.
proof fn list_and_name_exclude(part: Seq<u8>)
    ensures
        list_app_id(part) == 0 || argument_app_id(part) == 0,
{
    broadcast use vstd::string::is_ascii_spec_bytes;

    reveal_strlit("--appids=");
    reveal_strlit("AppId=");
    assert("--appids=".is_ascii());
    assert("AppId=".is_ascii());
    if text::has_prefix(part, "--appids=".spec_bytes()) && text::has_prefix(part, "AppId=".spec_bytes()) {
        assert(part.take("--appids=".spec_bytes().len() as int)[0] == 0x2Du8);
        assert(part.take("AppId=".spec_bytes().len() as int)[0] == 0x41u8);
    }
}

// ---------------------------------------------------------------------------
// Process status lines
// ---------------------------------------------------------------------------

/// What a line of `/proc/<pid>/stat` says of a process.
pub struct ProcStat {
    /// The process name, without its brackets.
    pub name: String,
    /// The process id of the parent.
    pub parent_pid: u32,
}

/// Where the process name begins and where it ends: behind the first opening
/// bracket and before the last closing one.
pub open spec fn name_range(stat: Seq<char>) -> Option<(int, int)> {
    match (text::first_position(stat, '('), text::last_position(stat, ')')) {
        (Some(open), Some(close)) => Some((open + 1, close)),
        _ => None,
    }
}

/// The brackets around the name are in order.
pub open spec fn brackets_in_order(stat: Seq<char>) -> bool {
    name_range(stat) matches Some((from, to)) ==> from <= to
}

/// The last closing bracket is followed by a character of one byte.
pub open spec fn fields_follow_name(stat: Seq<char>) -> bool {
    text::last_position(stat, ')') matches Some(close) ==> close + 1 < stat.len() && stat[close + 1] as int
        <= 0x7F
}

/// The name and the parent of a process, read from its status line.
pub open spec fn stat_fields(stat: Seq<char>) -> Option<(Seq<char>, int)> {
    match name_range(stat) {
        None => None,
        Some((from, to)) => {
            let fields = text::words(stat.skip(to + 1));
            if fields.len() < 2 {
                None
            } else {
                match text::read_unsigned(fields[1], u32::MAX as int) {
                    Ok(parent) => Some((stat.subrange(from, to), parent)),
                    Err(_) => None,
                }
            }
        },
    }
}

/// When a process started, in clock ticks since boot: the twentieth field
/// behind the process name.
pub open spec fn stat_starttime(stat: Seq<char>) -> Option<int> {
    match text::last_position(stat, ')') {
        None => None,
        Some(close) => {
            let fields = text::words(stat.skip(close + 2));
            if fields.len() < 20 {
                None
            } else {
                match text::read_unsigned(fields[19], u64::MAX as int) {
                    Ok(ticks) => Some(ticks),
                    Err(_) => None,
                }
            }
        },
    }
}

/// Reads the name and the parent of a process; see [`stat_fields`].
pub fn parse_stat(stat: &str) -> (r: Option<ProcStat>)
    requires
        brackets_in_order(stat@),
    ensures
        r is Some <==> stat_fields(stat@) is Some,
        r matches Some(p) ==> stat_fields(stat@) == Some((p.name@, p.parent_pid as int)),
{
    let s = text::chars_of(stat);
    proof {
        text::first_position_is_first(s@, '(');
        text::last_position_is_last(s@, ')');
    }
    let open = match text::find_char(&s, '(') {
        Some(i) => i,
        None => return None,
    };
    let close = match text::rfind_char(&s, ')') {
        Some(i) => i,
        None => return None,
    };
    let name = text::sub_chars(&s, open + 1, close);
    let rest = text::sub_chars(&s, close + 1, s.len());
    proof {
        assert(rest@ == s@.skip(close + 1));
    }
    let fields = text::split_words(&rest);
    if fields.len() < 2 {
        return None;
    }
    proof {
        assert(text::views(fields@)[1] == fields@[1]@);
    }
    match text::parse_unsigned(&fields[1], u32::MAX as u64) {
        Ok(parent) => Some(ProcStat { name: text::string_of(&name), parent_pid: parent as u32 }),
        Err(_) => None,
    }
}

/// Reads when a process started; see [`stat_starttime`].
pub fn parse_starttime(stat: &str) -> (r: Option<u64>)
    requires
        fields_follow_name(stat@),
    ensures
        r matches Some(t) ==> stat_starttime(stat@) == Some(t as int),
        r is None ==> stat_starttime(stat@) is None,
{
    let s = text::chars_of(stat);
    proof {
        text::last_position_is_last(s@, ')');
    }
    let close = match text::rfind_char(&s, ')') {
        Some(i) => i,
        None => return None,
    };
    let rest = text::sub_chars(&s, close + 2, s.len());
    proof {
        assert(rest@ == s@.skip(close + 2));
    }
    let fields = text::split_words(&rest);
    if fields.len() < 20 {
        return None;
    }
    proof {
        assert(text::views(fields@)[19] == fields@[19]@);
    }
    match text::parse_unsigned(&fields[19], u64::MAX) {
        Ok(ticks) => Some(ticks),
        Err(_) => None,
    }
}

// ---------------------------------------------------------------------------
// The cache
// ---------------------------------------------------------------------------

/// For how many seconds a cached app id is good.
pub const APPID_CACHE_TTL_SECS: u64 = 5;

/// Nanoseconds in a second.
pub const NANOS_PER_SEC: u64 = 1_000_000_000;

/// One cached app id.
#[derive(Clone, Copy)]
pub struct CacheEntry {
    /// Process id.
    pub pid: u32,
    /// When the process started.
    pub starttime: u64,
    /// The app id found, or 0.
    pub app_id: u32,
    /// When it was found, in nanoseconds.
    pub found_at: u64,
}

/// App ids found for processes. A process is known by its id and its start,
/// so that a reused process id is no stale hit.
pub struct AppIdCache {
    entries: Vec<CacheEntry>,
}

/// Whether an entry found at `found_at` is still good at `now`.
pub open spec fn fresh(found_at: u64, now: u64) -> bool {
    now - found_at < APPID_CACHE_TTL_SECS * NANOS_PER_SEC
}

/// The app id that the cache gives for a process at `now`.
pub open spec fn lookup(
    cache: Map<(u32, u64), (u32, u64)>,
    pid: u32,
    starttime: Option<u64>,
    now: u64,
) -> Option<u32> {
    match starttime {
        Some(start) if cache.contains_key((pid, start)) && fresh(cache[(pid, start)].1, now) => Some(
            cache[(pid, start)].0,
        ),
        _ => None,
    }
}

/// The cache after a lookup: without the entry if that was too old.
pub open spec fn after_lookup(
    cache: Map<(u32, u64), (u32, u64)>,
    pid: u32,
    starttime: Option<u64>,
    now: u64,
) -> Map<(u32, u64), (u32, u64)> {
    match starttime {
        Some(start) if cache.contains_key((pid, start)) && !fresh(cache[(pid, start)].1, now) => cache.remove(
            (pid, start),
        ),
        _ => cache,
    }
}

/// The cache after an app id was stored.
pub open spec fn stored(
    cache: Map<(u32, u64), (u32, u64)>,
    pid: u32,
    starttime: Option<u64>,
    app_id: u32,
    now: u64,
) -> Map<(u32, u64), (u32, u64)> {
    match starttime {
        Some(start) => cache.insert((pid, start), (app_id, now)),
        None => cache,
    }
}

/// What was stored for a process comes back for that process as long as it is
/// fresh, and for no other start of the same process id; a lookup never
/// changes what another lookup at the same time gives.
pub proof fn stored_app_id_comes_back(
    cache: Map<(u32, u64), (u32, u64)>,
    pid: u32,
    start: u64,
    app_id: u32,
    found_at: u64,
    now: u64,
    other_pid: u32,
    other_start: Option<u64>,
)
    ensures
        lookup(stored(cache, pid, Some(start), app_id, found_at), pid, Some(start), now) == if fresh(
            found_at,
            now,
        ) {
            Some(app_id)
        } else {
            None
        },
        other_start != Some(start) ==> lookup(
            stored(cache, pid, Some(start), app_id, found_at),
            pid,
            other_start,
            now,
        ) == lookup(cache, pid, other_start, now),
        lookup(after_lookup(cache, pid, Some(start), now), other_pid, other_start, now) == lookup(
            cache,
            other_pid,
            other_start,
            now,
        ),
{
}

/// Where the entry of a process stands.
spec fn entry_at(entries: Seq<CacheEntry>, pid: u32, starttime: u64, i: int) -> bool {
    0 <= i < entries.len() && entries[i].pid == pid && entries[i].starttime == starttime
}

impl View for AppIdCache {
    type V = Map<(u32, u64), (u32, u64)>;

    /// From process id and start to app id and when it was found.
    closed spec fn view(&self) -> Map<(u32, u64), (u32, u64)> {
        let entries = self.entries@;
        Map::new(
            |k: (u32, u64)| exists|i: int| entry_at(entries, k.0, k.1, i),
            |k: (u32, u64)|
                {
                    let i = choose|i: int| entry_at(entries, k.0, k.1, i);
                    (entries[i].app_id, entries[i].found_at)
                },
        )
    }
}

impl AppIdCache {
    /// No process has two entries.
    pub closed spec fn well_formed(self) -> bool {
        forall|i: int, j: int|
            0 <= i < j < self.entries@.len() ==> !((#[trigger] self.entries@[i]).pid == (
            #[trigger] self.entries@[j]).pid && self.entries@[i].starttime == self.entries@[j].starttime)
    }

    /// An empty cache.
    pub fn new() -> (cache: Self)
        ensures
            cache.well_formed(),
            cache@ == Map::<(u32, u64), (u32, u64)>::empty(),
    {
        let cache = AppIdCache { entries: Vec::new() };
        proof {
            assert(cache@ =~= Map::<(u32, u64), (u32, u64)>::empty());
        }
        cache
    }

    /// Where the entry of a process stands.
    fn position(&self, pid: u32, starttime: u64) -> (r: Option<usize>)
        ensures
            r matches Some(i) ==> entry_at(self.entries@, pid, starttime, i as int),
            r is None ==> forall|i: int| !entry_at(self.entries@, pid, starttime, i),
    {
        let mut i: usize = 0;
        while i < self.entries.len()
            invariant
                i <= self.entries@.len(),
                forall|j: int| 0 <= j < i ==> !entry_at(self.entries@, pid, starttime, j),
            decreases self.entries@.len() - i,
        {
            if self.entries[i].pid == pid && self.entries[i].starttime == starttime {
                return Some(i);
            }
            i += 1;
        }
        None
    }
}

/// What the cache holds of a process stands at the index of its entry.
proof fn view_at(cache: AppIdCache, pid: u32, starttime: u64, i: int)
    requires
        cache.well_formed(),
        entry_at(cache.entries@, pid, starttime, i),
    ensures
        cache@.contains_key((pid, starttime)),
        cache@[(pid, starttime)] == (cache.entries@[i].app_id, cache.entries@[i].found_at),
{
    let k = (pid, starttime);
    assert(entry_at(cache.entries@, k.0, k.1, i));
    let j = choose|j: int| entry_at(cache.entries@, k.0, k.1, j);
    assert(entry_at(cache.entries@, k.0, k.1, j));
    assert(j == i);
}

/// What the cache holds stands at some index.
proof fn view_has_entry(cache: AppIdCache, pid: u32, starttime: u64) -> (i: int)
    requires
        cache@.contains_key((pid, starttime)),
    ensures
        entry_at(cache.entries@, pid, starttime, i),
{
    let k = (pid, starttime);
    choose|i: int| entry_at(cache.entries@, k.0, k.1, i)
}

/// Looks a process up. An entry that is no longer fresh is dropped.
pub fn cache_get(cache: &mut AppIdCache, pid: u32, starttime: Option<u64>, now: u64) -> (r: Option<u32>)
    requires
        old(cache).well_formed(),
    ensures
        final(cache).well_formed(),
        r == lookup(old(cache)@, pid, starttime, now),
        final(cache)@ == after_lookup(old(cache)@, pid, starttime, now),
{
    let start = match starttime {
        Some(start) => start,
        None => return None,
    };
    match cache.position(pid, start) {
        None => {
            proof {
                if cache@.contains_key((pid, start)) {
                    let i = view_has_entry(*cache, pid, start);
                    assert(!entry_at(cache.entries@, pid, start, i));
                }
            }
            None
        },
        Some(i) => {
            let entry = cache.entries[i];
            let ghost before = cache.entries@;
            proof {
                view_at(*cache, pid, start, i as int);
            }
            let age: u64 = if now < entry.found_at { 0 } else { now - entry.found_at };
            if age / NANOS_PER_SEC < APPID_CACHE_TTL_SECS {
                return Some(entry.app_id);
            }
            let ghost view_before = cache@;
            cache.entries.remove(i);
            proof {
                let after = cache.entries@;
                assert(after =~= before.remove(i as int));
                assert forall|k: (u32, u64)| #[trigger] cache@.contains_key(k) implies k != (pid, start)
                    && view_before.contains_key(k) && cache@[k] == view_before[k] by {
                    let j = view_has_entry(*cache, k.0, k.1);
                    view_at(*cache, k.0, k.1, j);
                    let was = if j < i { j } else { j + 1 };
                    view_at(*old(cache), k.0, k.1, was);
                }
                assert forall|k: (u32, u64)| #[trigger] view_before.contains_key(k) && k != (pid, start)
                    implies cache@.contains_key(k) by {
                    let j = view_has_entry(*old(cache), k.0, k.1);
                    let is = if j < i { j } else { j - 1 };
                    view_at(*cache, k.0, k.1, is);
                }
                assert(cache@ =~= view_before.remove((pid, start)));
            }
            None
        },
    }
}

/// Stores the app id found for a process; a process whose start is not known
/// is not stored.
pub fn cache_set(cache: &mut AppIdCache, pid: u32, starttime: Option<u64>, app_id: u32, now: u64)
    requires
        old(cache).well_formed(),
    ensures
        final(cache).well_formed(),
        final(cache)@ == stored(old(cache)@, pid, starttime, app_id, now),
{
    let start = match starttime {
        Some(start) => start,
        None => return ,
    };
    let ghost before = cache.entries@;
    let ghost view_before = cache@;
    let entry = CacheEntry { pid, starttime: start, app_id, found_at: now };
    let ghost mut at: int = 0;
    match cache.position(pid, start) {
        Some(i) => {
            cache.entries.set(i, entry);
            proof {
                at = i as int;
            }
        },
        None => {
            proof {
                at = before.len() as int;
                assert forall|i: int| 0 <= i < before.len() implies !((#[trigger] before[i]).pid == pid
                    && before[i].starttime == start) by {
                    assert(!entry_at(before, pid, start, i));
                }
            }
            cache.entries.push(entry);
        },
    }
    proof {
        let after = cache.entries@;
        assert(after[at] == entry);
        view_at(*cache, pid, start, at);
        assert forall|k: (u32, u64)| #[trigger] cache@.contains_key(k) && k != (pid, start) implies
            view_before.contains_key(k) && cache@[k] == view_before[k] by {
            let j = view_has_entry(*cache, k.0, k.1);
            view_at(*cache, k.0, k.1, j);
            view_at(*old(cache), k.0, k.1, j);
        }
        assert forall|k: (u32, u64)| #[trigger] view_before.contains_key(k) implies cache@.contains_key(
            k,
        ) by {
            if k != (pid, start) {
                let j = view_has_entry(*old(cache), k.0, k.1);
                view_at(*cache, k.0, k.1, j);
            }
        }
        assert(cache@ =~= view_before.insert((pid, start), (app_id, now)));
    }
}

// ---------------------------------------------------------------------------
// The walk up the process tree
// ---------------------------------------------------------------------------

/// What to do next in a walk up the process tree.
#[derive(Clone, Copy, Debug, PartialEq, Eq, Structural)]
pub enum AppIdWalk {
    /// Read the status line of this process.
    ReadStat { pid: u32 },
    /// Read the command line of this process.
    ReadCmdline { pid: u32, parent_pid: u32, reaper: bool },
    /// The walk is over, with this app id or 0.
    Done { app_id: u32 },
}

/// Begins a walk at `pid`.
pub fn get_appid_from_pid(pid: u32) -> (walk: AppIdWalk)
    ensures
        walk == (AppIdWalk::ReadStat { pid }),
{
    AppIdWalk::ReadStat { pid }
}

/// The step after a process has nothing to offer: up to its parent, but not
/// past a reaper.
pub open spec fn walk_up(parent_pid: u32, reaper: bool) -> AppIdWalk {
    if reaper {
        AppIdWalk::Done { app_id: 0 }
    } else {
        AppIdWalk::ReadStat { pid: parent_pid }
    }
}

/// The step after the status line of `pid` was read, or could not be, and the
/// cache gave `cached` for it. The walk ends at a process without a readable
/// status line, at the root and at process 1; a reaper is looked at, and the
/// walk does not go past it.
pub open spec fn walk_from_stat(
    pid: u32,
    stat: Option<(Seq<char>, int)>,
    cached: Option<u32>,
) -> AppIdWalk {
    match stat {
        None => AppIdWalk::Done { app_id: 0 },
        Some((name, parent)) => {
            let reaper = name == "reaper"@;
            match cached {
                Some(id) => if id != 0 {
                    AppIdWalk::Done { app_id: id }
                } else {
                    walk_up(parent as u32, reaper)
                },
                None => if !reaper && (parent == 0 || parent == u32::MAX || pid == 1) {
                    AppIdWalk::Done { app_id: 0 }
                } else {
                    AppIdWalk::ReadCmdline { pid, parent_pid: parent as u32, reaper }
                },
            }
        },
    }
}

/// The app id on a command line that was read, or could not be.
pub open spec fn read_app_id(cmdline: Option<Seq<u8>>) -> int {
    match cmdline {
        Some(bytes) => cmdline_app_id(bytes),
        None => 0,
    }
}

/// Goes on after the status line of `pid` was read; `None` where it could not
/// be.
pub fn walk_stat(pid: u32, stat: Option<&str>, cache: &mut AppIdCache, now: u64) -> (walk: AppIdWalk)
    requires
        old(cache).well_formed(),
        stat matches Some(line) ==> brackets_in_order(line@) && (stat_fields(line@) is Some
            ==> fields_follow_name(line@)),
    ensures
        final(cache).well_formed(),
        match stat {
            None => walk == walk_from_stat(pid, None, None) && final(cache)@ == old(cache)@,
            Some(line) => {
                let fields = stat_fields(line@);
                let start = starttime_of(line@);
                &&& walk == walk_from_stat(pid, fields, lookup(old(cache)@, pid, start, now))
                &&& final(cache)@ == if fields is Some {
                    after_lookup(old(cache)@, pid, start, now)
                } else {
                    old(cache)@
                }
            },
        },
{
    let line = match stat {
        Some(line) => line,
        None => return AppIdWalk::Done { app_id: 0 },
    };
    let fields = match parse_stat(line) {
        Some(fields) => fields,
        None => return AppIdWalk::Done { app_id: 0 },
    };
    let reaper = text::same_text(fields.name.as_str(), "reaper");
    let start = parse_starttime(line);
    match cache_get(cache, pid, start, now) {
        Some(id) => {
            if id != 0 {
                AppIdWalk::Done { app_id: id }
            } else if reaper {
                AppIdWalk::Done { app_id: 0 }
            } else {
                AppIdWalk::ReadStat { pid: fields.parent_pid }
            }
        },
        None => {
            if !reaper && (fields.parent_pid == 0 || fields.parent_pid == u32::MAX || pid == 1) {
                AppIdWalk::Done { app_id: 0 }
            } else {
                AppIdWalk::ReadCmdline { pid, parent_pid: fields.parent_pid, reaper }
            }
        },
    }
}

/// When a process started, as the cache keys it.
pub open spec fn starttime_of(stat: Seq<char>) -> Option<u64> {
    match stat_starttime(stat) {
        Some(ticks) => Some(ticks as u64),
        None => None,
    }
}

/// The step after the app id `id`, or 0, was found on the command line of a
/// process.
pub open spec fn walk_from_cmdline(parent_pid: u32, reaper: bool, id: int) -> AppIdWalk {
    if id != 0 {
        AppIdWalk::Done { app_id: id as u32 }
    } else {
        walk_up(parent_pid, reaper)
    }
}

/// Goes on after the command line of `pid` was read, `None` where it could
/// not be. What was found, 0 included, is stored in the cache.
pub fn walk_cmdline(
    pid: u32,
    parent_pid: u32,
    reaper: bool,
    cmdline: Option<&[u8]>,
    starttime: Option<u64>,
    cache: &mut AppIdCache,
    now: u64,
) -> (walk: AppIdWalk)
    requires
        old(cache).well_formed(),
    ensures
        final(cache).well_formed(),
        ({
            let id = read_app_id(
                match cmdline {
                    Some(bytes) => Some(bytes@),
                    None => None,
                },
            );
            &&& walk == walk_from_cmdline(parent_pid, reaper, id)
            &&& final(cache)@ == stored(old(cache)@, pid, starttime, id as u32, now)
        }),
{
    let id: u32 = match cmdline {
        Some(bytes) => scan_cmdline_for_app_id(bytes),
        None => 0,
    };
    cache_set(cache, pid, starttime, id, now);
    if id != 0 {
        AppIdWalk::Done { app_id: id }
    } else if reaper {
        AppIdWalk::Done { app_id: 0 }
    } else {
        AppIdWalk::ReadStat { pid: parent_pid }
    }
}

// ---------------------------------------------------------------------------
// A whole walk
// ---------------------------------------------------------------------------

/// A process as a walk finds it.
pub struct Process {
    /// Its status line.
    pub stat: Seq<char>,
    /// Its command line, if that can be read.
    pub cmdline: Option<Seq<u8>>,
    /// When its status line is read.
    pub read_at: u64,
    /// When what its command line holds is stored.
    pub stored_at: u64,
}

/// The name and the parent of a process, if its status line can be read.
pub open spec fn process_fields(processes: Map<u32, Process>, pid: u32) -> Option<(Seq<char>, int)> {
    if processes.contains_key(pid) {
        stat_fields(processes[pid].stat)
    } else {
        None
    }
}

/// What the cache gives for a process when its status line is read.
pub open spec fn process_cached(
    processes: Map<u32, Process>,
    cache: Map<(u32, u64), (u32, u64)>,
    pid: u32,
) -> Option<u32> {
    if processes.contains_key(pid) {
        lookup(cache, pid, starttime_of(processes[pid].stat), processes[pid].read_at)
    } else {
        None
    }
}

/// A process whose command line is not looked at, unless it is cached: one
/// without a parent, and process 1, where it is no reaper.
pub open spec fn is_top(pid: u32, name: Seq<char>, parent: int) -> bool {
    name != "reaper"@ && (parent == 0 || parent == u32::MAX || pid == 1)
}

/// The app id of one process: the cached one, else the one on its command
/// line; 0 where there is none.
pub open spec fn process_app_id(
    processes: Map<u32, Process>,
    cache: Map<(u32, u64), (u32, u64)>,
    pid: u32,
) -> int {
    match process_fields(processes, pid) {
        None => 0,
        Some((name, parent)) => match process_cached(processes, cache, pid) {
            Some(id) => id as int,
            None => if is_top(pid, name, parent) {
                0
            } else {
                read_app_id(processes[pid].cmdline)
            },
        },
    }
}

/// The process that is examined after `pid`: its parent, where `pid` has no
/// app id, is no reaper and is not at the top.
pub open spec fn next_process(
    processes: Map<u32, Process>,
    cache: Map<(u32, u64), (u32, u64)>,
    pid: u32,
) -> Option<u32> {
    match process_fields(processes, pid) {
        None => None,
        Some((name, parent)) => if process_app_id(processes, cache, pid) != 0 || name == "reaper"@ || (
        process_cached(processes, cache, pid) is None && is_top(pid, name, parent)) {
            None
        } else {
            Some(parent as u32)
        },
    }
}

/// The first `n` processes that are examined from `pid` on, in order.
pub open spec fn examined(
    processes: Map<u32, Process>,
    cache: Map<(u32, u64), (u32, u64)>,
    pid: u32,
    n: nat,
) -> Seq<u32>
    decreases n,
{
    if n == 0 {
        Seq::empty()
    } else {
        seq![pid] + match next_process(processes, cache, pid) {
            Some(next) => examined(processes, cache, next, (n - 1) as nat),
            None => Seq::empty(),
        }
    }
}

/// No more than `n` processes are examined from `pid` on.
pub open spec fn ends_within(
    processes: Map<u32, Process>,
    cache: Map<(u32, u64), (u32, u64)>,
    pid: u32,
    n: nat,
) -> bool
    decreases n,
{
    n > 0 && match next_process(processes, cache, pid) {
        Some(next) => ends_within(processes, cache, next, (n - 1) as nat),
        None => true,
    }
}

/// The first app id other than 0 among some processes, in order, or 0.
pub open spec fn app_id_among(
    processes: Map<u32, Process>,
    cache: Map<(u32, u64), (u32, u64)>,
    pids: Seq<u32>,
) -> int
    decreases pids.len(),
{
    if pids.len() == 0 {
        0
    } else if process_app_id(processes, cache, pids[0]) != 0 {
        process_app_id(processes, cache, pids[0])
    } else {
        app_id_among(processes, cache, pids.drop_first())
    }
}

/// One step of a walk among `processes`, and the cache after it: what
/// [`walk_stat`] and [`walk_cmdline`] do with what is read of the process.
pub open spec fn walk_step(
    processes: Map<u32, Process>,
    walk: AppIdWalk,
    cache: Map<(u32, u64), (u32, u64)>,
) -> (AppIdWalk, Map<(u32, u64), (u32, u64)>) {
    match walk {
        AppIdWalk::ReadStat { pid } => if processes.contains_key(pid) {
            let process = processes[pid];
            let fields = stat_fields(process.stat);
            let start = starttime_of(process.stat);
            (
                walk_from_stat(pid, fields, lookup(cache, pid, start, process.read_at)),
                if fields is Some {
                    after_lookup(cache, pid, start, process.read_at)
                } else {
                    cache
                },
            )
        } else {
            (walk_from_stat(pid, None, None), cache)
        },
        AppIdWalk::ReadCmdline { pid, parent_pid, reaper } => {
            let process = processes[pid];
            let id = read_app_id(process.cmdline);
            (
                walk_from_cmdline(parent_pid, reaper, id),
                stored(cache, pid, starttime_of(process.stat), id as u32, process.stored_at),
            )
        },
        AppIdWalk::Done { .. } => (walk, cache),
    }
}

/// Where a walk is after `steps` steps.
pub open spec fn walk_after(
    processes: Map<u32, Process>,
    walk: AppIdWalk,
    cache: Map<(u32, u64), (u32, u64)>,
    steps: nat,
) -> AppIdWalk
    decreases steps,
{
    if steps == 0 {
        walk
    } else {
        let (next, kept) = walk_step(processes, walk, cache);
        walk_after(processes, next, kept, (steps - 1) as nat)
    }
}

/// A walk ends, and ends with the first app id other than 0 among the
/// processes that are examined, in order, or with 0 if they have none: two
/// steps for each process are enough. What the walk itself puts into the cache
/// or drops from it does not change what it finds. It is left out where the
/// parents go round in a circle, on which a walk has no end.
pub proof fn walk_finds_first_app_id(
    processes: Map<u32, Process>,
    cache: Map<(u32, u64), (u32, u64)>,
    pid: u32,
    n: nat,
)
    requires
        ends_within(processes, cache, pid, n),
    ensures
        walk_after(processes, AppIdWalk::ReadStat { pid }, cache, 2 * n) == (AppIdWalk::Done {
            app_id: app_id_among(processes, cache, examined(processes, cache, pid, n)) as u32,
        }),
{
    walk_among_unseen(processes, cache, cache, pid, n);
}

/// Among processes that can be ranked such that each parent that is examined
/// ranks below its child, a walk examines no more processes than the rank of
/// the first one, and one.
pub proof fn ranked_processes_end(
    processes: Map<u32, Process>,
    cache: Map<(u32, u64), (u32, u64)>,
    pid: u32,
    rank: spec_fn(u32) -> nat,
)
    requires
        forall|child: u32|
            (#[trigger] next_process(processes, cache, child)) matches Some(parent) ==> rank(parent) < rank(
                child,
            ),
    ensures
        ends_within(processes, cache, pid, rank(pid) + 1),
    decreases rank(pid),
{
    if let Some(parent) = next_process(processes, cache, pid) {
        ranked_processes_end(processes, cache, parent, rank);
        ends_within_more(processes, cache, parent, rank(parent) + 1, rank(pid));
    }
}

/// A walk that ends within `n` processes ends within more.
proof fn ends_within_more(
    processes: Map<u32, Process>,
    cache: Map<(u32, u64), (u32, u64)>,
    pid: u32,
    n: nat,
    more: nat,
)
    requires
        ends_within(processes, cache, pid, n),
        n <= more,
    ensures
        ends_within(processes, cache, pid, more),
        examined(processes, cache, pid, more) == examined(processes, cache, pid, n),
    decreases n,
{
    if let Some(next) = next_process(processes, cache, pid) {
        ends_within_more(processes, cache, next, (n - 1) as nat, (more - 1) as nat);
    }
}

/// A walk that is over stays as it is.
proof fn walk_stays_done(
    processes: Map<u32, Process>,
    app_id: u32,
    cache: Map<(u32, u64), (u32, u64)>,
    steps: nat,
)
    ensures
        walk_after(processes, AppIdWalk::Done { app_id }, cache, steps) == (AppIdWalk::Done { app_id }),
    decreases steps,
{
    if steps > 0 {
        walk_stays_done(processes, app_id, cache, (steps - 1) as nat);
    }
}

/// A walk that is over after some steps is where it was after more.
proof fn walk_stays_after(
    processes: Map<u32, Process>,
    walk: AppIdWalk,
    cache: Map<(u32, u64), (u32, u64)>,
    steps: nat,
    more: nat,
)
    requires
        steps <= more,
        walk_after(processes, walk, cache, steps) is Done,
    ensures
        walk_after(processes, walk, cache, more) == walk_after(processes, walk, cache, steps),
    decreases steps,
{
    if steps == 0 {
        walk_stays_done(processes, walk->app_id, cache, more);
    } else {
        let (next, kept) = walk_step(processes, walk, cache);
        walk_stays_after(processes, next, kept, (steps - 1) as nat, (more - 1) as nat);
    }
}

/// A walk from `pid` on, with a cache `now_cached` that gives the same as
/// `cache` for the processes from which no more than `n` are examined.
proof fn walk_among_unseen(
    processes: Map<u32, Process>,
    cache: Map<(u32, u64), (u32, u64)>,
    now_cached: Map<(u32, u64), (u32, u64)>,
    pid: u32,
    n: nat,
)
    requires
        ends_within(processes, cache, pid, n),
        forall|p: u32|
            #[trigger] ends_within(processes, cache, p, n) ==> process_cached(processes, now_cached, p)
                == process_cached(processes, cache, p),
    ensures
        walk_after(processes, AppIdWalk::ReadStat { pid }, now_cached, 2 * n) == (AppIdWalk::Done {
            app_id: app_id_among(processes, cache, examined(processes, cache, pid, n)) as u32,
        }),
    decreases n,
{
    let fewer = (n - 1) as nat;
    let start = AppIdWalk::ReadStat { pid };
    assert forall|p: u32| #[trigger] ends_within(processes, cache, p, fewer) implies ends_within(
        processes,
        cache,
        p,
        n,
    ) by {
        ends_within_more(processes, cache, p, fewer, n);
    }
    if ends_within(processes, cache, pid, fewer) {
        walk_among_unseen(processes, cache, now_cached, pid, fewer);
        walk_stays_after(processes, start, now_cached, 2 * fewer, 2 * n);
        ends_within_more(processes, cache, pid, fewer, n);
    } else {
        let (second, looked_up) = walk_step(processes, start, now_cached);
        let (third, kept) = walk_step(processes, second, looked_up);
        let pids = examined(processes, cache, pid, n);
        let own = process_app_id(processes, cache, pid);
        assert(pids[0] == pid);
        assert(walk_after(processes, start, now_cached, 2 * n) == walk_after(
            processes,
            second,
            looked_up,
            (2 * n - 1) as nat,
        ));
        assert(walk_after(processes, second, looked_up, (2 * n - 1) as nat) == walk_after(
            processes,
            third,
            kept,
            2 * fewer,
        ));
        match next_process(processes, cache, pid) {
            None => {
                assert(pids.drop_first() =~= Seq::<u32>::empty());
                assert(app_id_among(processes, cache, pids.drop_first()) == 0);
                assert(third == (AppIdWalk::Done { app_id: own as u32 }));
                walk_stays_done(processes, own as u32, kept, 2 * fewer);
            },
            Some(next) => {
                assert(pids.drop_first() =~= examined(processes, cache, next, fewer));
                let up = AppIdWalk::ReadStat { pid: next };
                if second is ReadStat {
                    assert(second == up);
                    others_stay_cached(processes, cache, now_cached, looked_up, pid, fewer);
                    walk_among_unseen(processes, cache, looked_up, next, fewer);
                    walk_stays_after(processes, up, looked_up, 2 * fewer, (2 * n - 1) as nat);
                } else {
                    assert(third == up);
                    others_stay_cached(processes, cache, now_cached, kept, pid, fewer);
                    walk_among_unseen(processes, cache, kept, next, fewer);
                }
            },
        }
    }
}

/// A cache that has changed for `pid` alone still gives the same for the
/// processes from which no more than `n` are examined, where that does not
/// hold of `pid`.
proof fn others_stay_cached(
    processes: Map<u32, Process>,
    cache: Map<(u32, u64), (u32, u64)>,
    before: Map<(u32, u64), (u32, u64)>,
    after: Map<(u32, u64), (u32, u64)>,
    pid: u32,
    n: nat,
)
    requires
        !ends_within(processes, cache, pid, n),
        forall|p: u32|
            #[trigger] ends_within(processes, cache, p, n) ==> process_cached(processes, before, p)
                == process_cached(processes, cache, p),
        forall|key: (u32, u64)|
            key.0 != pid ==> (#[trigger] after.contains_key(key) <==> before.contains_key(key)) && after[key]
                == before[key],
    ensures
        forall|p: u32|
            #[trigger] ends_within(processes, cache, p, n) ==> process_cached(processes, after, p)
                == process_cached(processes, cache, p),
{
    assert forall|p: u32| #[trigger] ends_within(processes, cache, p, n) implies process_cached(
        processes,
        after,
        p,
    ) == process_cached(processes, cache, p) by {
        assert(p != pid);
        if let Some(start) = starttime_of(processes[p].stat) {
            assert(after.contains_key((p, start)) <==> before.contains_key((p, start)));
        }
    }
}

// ---------------------------------------------------------------------------
// What is read of command lines, status lines and the cache
// ---------------------------------------------------------------------------

/// `s` is white space of ASCII alone: spaces, tabs, line feeds, form feeds and
/// carriage returns.
pub open spec fn is_blank(s: Seq<u8>) -> bool {
    forall|i: int|
        0 <= i < s.len() ==> #[trigger] s[i] == 0x20 || s[i] == 0x09 || s[i] == 0x0A || s[i] == 0x0C
            || s[i] == 0x0D
}

/// Each character as the byte of the same number.
pub open spec fn ascii_bytes(s: Seq<char>) -> Seq<u8> {
    s.map_values(|c: char| c as u8)
}

/// A field that holds a number of 32 bits names that app id, whatever white
/// space stands around it.
pub proof fn numbers_are_app_ids(before: Seq<u8>, n: u32, after: Seq<u8>)
    requires
        is_blank(before),
        is_blank(after),
    ensures
        field_app_id(before + ascii_bytes(text::decimal(n as nat)) + after) == n,
{
    let digits = text::decimal(n as nat);
    let number = ascii_bytes(digits);
    text::decimal_reads_back(n as nat, u32::MAX as int);
    assert forall|i: int| 0 <= i < number.len() implies 0x30 <= #[trigger] number[i] <= 0x39 by {
        assert(text::is_digit(digits[i]));
    }
    assert(before + number + after == before + (number + after));
    blanks_in_front_go(before, number + after);
    blanks_behind_go(number, after);
    assert(byte_chars(number) =~= digits) by {
        assert forall|i: int| 0 <= i < digits.len() implies byte_chars(number)[i] == digits[i] by {
            assert(text::is_digit(digits[i]));
        }
    }
}

/// White space in front goes.
proof fn blanks_in_front_go(before: Seq<u8>, s: Seq<u8>)
    requires
        is_blank(before),
        s.len() > 0,
        0x30 <= s[0] <= 0x39,
    ensures
        trim_start(before + s) == s,
    decreases before.len(),
{
    if before.len() > 0 {
        let rest = before.skip(1);
        assert(before[0] == before[0]);
        assert(forall|i: int| #![trigger rest[i]] 0 <= i < rest.len() ==> rest[i] == before[i + 1]);
        blanks_in_front_go(rest, s);
        assert((before + s).skip(1) == rest + s);
        assert((before + s)[0] == before[0]);
    } else {
        assert(before + s == s);
    }
}

/// White space behind goes.
proof fn blanks_behind_go(s: Seq<u8>, after: Seq<u8>)
    requires
        is_blank(after),
        s.len() > 0,
        0x30 <= s.last() <= 0x39,
    ensures
        trim_end(s + after) == s,
    decreases after.len(),
{
    if after.len() > 0 {
        let rest = after.drop_last();
        assert(after[after.len() - 1] == after.last());
        assert(forall|i: int| #![trigger rest[i]] 0 <= i < rest.len() ==> rest[i] == after[i]);
        blanks_behind_go(s, rest);
        assert((s + after).drop_last() == s + rest);
        assert((s + after).last() == after.last());
    } else {
        assert(s + after == s);
    }
}

/// The first field of a list that names an app id counts.
pub proof fn first_field_counts(fields: Seq<Seq<u8>>, i: int)
    requires
        0 <= i < fields.len(),
        field_app_id(fields[i]) != 0,
        forall|j: int| 0 <= j < i ==> field_app_id(#[trigger] fields[j]) == 0,
    ensures
        first_app_id(fields) == field_app_id(fields[i]),
    decreases fields.len(),
{
    let rest = fields.drop_last();
    assert(forall|j: int| #![trigger rest[j]] 0 <= j < rest.len() ==> rest[j] == fields[j]);
    if i < rest.len() {
        first_field_counts(rest, i);
    } else {
        no_field_counts(rest);
    }
}

/// A list of which no field names an app id names none.
proof fn no_field_counts(fields: Seq<Seq<u8>>)
    requires
        forall|j: int| 0 <= j < fields.len() ==> field_app_id(#[trigger] fields[j]) == 0,
    ensures
        first_app_id(fields) == 0,
    decreases fields.len(),
{
    if fields.len() > 0 {
        let rest = fields.drop_last();
        assert(forall|j: int| #![trigger rest[j]] 0 <= j < rest.len() ==> rest[j] == fields[j]);
        no_field_counts(rest);
        assert(fields[fields.len() - 1] == fields.last());
    }
}

/// An argument names an app id behind `AppId=`, or the first of a list with
/// commas behind `--appids=`.
pub proof fn arguments_name_app_ids(rest: Seq<u8>)
    ensures
        argument_app_id("AppId=".spec_bytes() + rest) == field_app_id(rest),
        list_app_id("--appids=".spec_bytes() + rest) == first_app_id(text::split_on(rest, 44u8)),
        argument_app_id("--appids=".spec_bytes() + rest) == 0,
        list_app_id("AppId=".spec_bytes() + rest) == 0,
        argument_app_id("SteamLaunch".spec_bytes()) == 0,
        list_app_id("SteamLaunch".spec_bytes()) == 0,
{
    broadcast use vstd::string::is_ascii_spec_bytes;

    reveal_strlit("--appids=");
    reveal_strlit("AppId=");
    reveal_strlit("SteamLaunch");
    assert("--appids=".is_ascii() && "AppId=".is_ascii() && "SteamLaunch".is_ascii());
    let name = "AppId=".spec_bytes();
    let list = "--appids=".spec_bytes();
    let launch = "SteamLaunch".spec_bytes();
    assert(name.len() == 6 && list.len() == 9 && launch.len() == 11);
    assert(name[0] == 0x41u8 && list[0] == 0x2Du8 && launch[0] == 0x53u8);
    assert((name + rest).take(6) == name && (name + rest).skip(6) == rest);
    assert((list + rest).take(9) == list && (list + rest).skip(9) == rest);
    if text::has_prefix(list + rest, name) {
        assert((list + rest).take(6)[0] == list[0]);
    }
    if text::has_prefix(name + rest, list) {
        assert((name + rest).take(9)[0] == name[0]);
    }
    if text::has_prefix(launch, name) {
        assert(launch.take(6)[0] == launch[0]);
    }
    if text::has_prefix(launch, list) {
        assert(launch.take(9)[0] == launch[0]);
    }
}

/// Arguments are scanned in order. An `AppId=` behind `SteamLaunch` and an
/// `--appids=` settle the scan; an `AppId=` before that counts until something
/// settles it, and the first of these counts; other arguments change nothing.
pub proof fn arguments_are_scanned(scan: Scan, rest: Seq<u8>, part: Seq<u8>, parts: Seq<Seq<u8>>)
    ensures
        scan_parts(parts.push(part)) == scan_step(scan_parts(parts), part),
        scan.done ==> scan_step(scan, part) == scan,
        !scan.done ==> {
            let launched = scan_step(scan, "SteamLaunch".spec_bytes());
            launched.launch && !launched.done && launched.app_id == scan.app_id
        },
        !scan.done && field_app_id(rest) != 0 ==> {
            let named = scan_step(scan, "AppId=".spec_bytes() + rest);
            &&& scan.launch ==> named.app_id == field_app_id(rest) && named.done
            &&& !scan.launch && scan.app_id == 0 ==> named.app_id == field_app_id(rest) && !named.done
            &&& !scan.launch && scan.app_id != 0 ==> named == scan
        },
        !scan.done && first_app_id(text::split_on(rest, 44u8)) != 0 ==> {
            let listed = scan_step(scan, "--appids=".spec_bytes() + rest);
            listed.app_id == first_app_id(text::split_on(rest, 44u8)) && listed.done
        },
        !text::has_prefix(part, "AppId=".spec_bytes()) && !text::has_prefix(
            part,
            "--appids=".spec_bytes(),
        ) && part != "SteamLaunch".spec_bytes() ==> scan_step(scan, part) == scan,
{
    broadcast use vstd::string::is_ascii_spec_bytes;

    assert(parts.push(part).drop_last() == parts);
    arguments_name_app_ids(rest);
    reveal_strlit("--appids=");
    reveal_strlit("AppId=");
    reveal_strlit("SteamLaunch");
    assert("--appids=".is_ascii() && "AppId=".is_ascii() && "SteamLaunch".is_ascii());
    let name = "AppId=".spec_bytes();
    let list = "--appids=".spec_bytes();
    let launch = "SteamLaunch".spec_bytes();
    assert(name.len() == 6 && list.len() == 9 && launch.len() == 11);
    assert(name[0] == 0x41u8 && list[0] == 0x2Du8 && launch[0] == 0x53u8);
    assert((list + rest).take(9) == list);
    assert((name + rest)[0] == 0x41u8 && (list + rest)[0] == 0x2Du8);
    if text::has_prefix(name + rest, list) {
        assert((name + rest).take(9)[0] == name[0]);
    }
    if text::has_prefix(launch, list) {
        assert(launch.take(9)[0] == launch[0]);
    }
}

/// The arguments of a command line are what stands between zero bytes: one more
/// argument behind a zero byte is scanned after the others.
pub proof fn zero_bytes_part_arguments(before: Seq<u8>, part: Seq<u8>)
    requires
        !part.contains(0u8),
    ensures
        cmdline_app_id(before.push(0u8) + part) == scan_step(
            scan_parts(text::split_on(before, 0u8)),
            part,
        ).app_id,
        cmdline_app_id(part) == scan_step(
            (Scan { launch: false, app_id: 0, done: false }),
            part,
        ).app_id,
        read_app_id(Some(part)) == cmdline_app_id(part),
        read_app_id(None) == 0,
{
    text::one_more_piece(before, part, 0u8);
    let parts = text::split_on(before, 0u8);
    assert(parts.push(part).drop_last() == parts);
    text::split_whole(part, 0u8);
    let one = seq![part];
    assert(text::split_on(part, 0u8) == one);
    assert(one.drop_last() == Seq::<Seq<u8>>::empty());
    assert(scan_parts(one.drop_last()) == (Scan { launch: false, app_id: 0, done: false }));
    assert(one.last() == part);
}

/// The name of a process stands between the first opening bracket and the last
/// closing one, whatever it holds itself; its parent is the second word behind
/// that, and its start the twentieth.
pub proof fn status_lines_are_read(before: Seq<char>, name: Seq<char>, rest: Seq<char>)
    requires
        !before.contains('('),
        !rest.contains(')'),
    ensures
        ({
            let stat = before.push('(') + name.push(')') + rest;
            let fields = text::words(rest);
            &&& name_range(stat) == Some(
                (before.len() as int + 1, before.len() as int + 1 + name.len() as int),
            )
            &&& stat_fields(stat) == if fields.len() < 2 {
                None
            } else {
                match text::read_unsigned(fields[1], u32::MAX as int) {
                    Ok(parent) => Some((name, parent)),
                    Err(_) => None,
                }
            }
            &&& rest.len() > 0 ==> stat_starttime(stat) == {
                let later = text::words(rest.skip(1));
                if later.len() < 20 {
                    None
                } else {
                    match text::read_unsigned(later[19], u64::MAX as int) {
                        Ok(ticks) => Some(ticks),
                        Err(_) => None,
                    }
                }
            }
        }),
{
    let stat = before.push('(') + name.push(')') + rest;
    let open = before.len() as int;
    let close = open + 1 + name.len();
    assert(stat[open] == '(' && stat[close] == ')');
    assert(stat.contains('(') && stat.contains(')'));
    text::first_position_is_first(stat, '(');
    text::last_position_is_last(stat, ')');
    let first = text::first_position(stat, '(')->0;
    let last = text::last_position(stat, ')')->0;
    if first < open {
        assert(before[first] == stat[first]);
        assert(before.contains('('));
    }
    if last > close {
        assert(rest[last - close - 1] == stat[last]);
        assert(rest.contains(')'));
    }
    assert(first == open && last == close);
    assert(stat.subrange(open + 1, close) == name);
    assert(stat.skip(close + 1) == rest);
    if rest.len() > 0 {
        assert(stat.skip(close + 2) == rest.skip(1));
    }
}

/// What was found of a process is good for five seconds.
pub proof fn entries_stay_fresh(
    cache: Map<(u32, u64), (u32, u64)>,
    pid: u32,
    start: u64,
    app_id: u32,
    found_at: u64,
    now: u64,
)
    ensures
        fresh(found_at, now) <==> now - found_at < 5_000_000_000,
        now - found_at < 5_000_000_000 ==> lookup(
            cache.insert((pid, start), (app_id, found_at)),
            pid,
            Some(start),
            now,
        ) == Some(app_id),
        now - found_at >= 5_000_000_000 ==> lookup(
            cache.insert((pid, start), (app_id, found_at)),
            pid,
            Some(start),
            now,
        ) is None,
        !cache.contains_key((pid, start)) ==> lookup(cache, pid, Some(start), now) is None,
        lookup(cache, pid, None, now) is None,
        stored(cache, pid, Some(start), app_id, now) == cache.insert((pid, start), (app_id, now)),
        stored(cache, pid, None, app_id, now) == cache,
{
}

/// A walk ends with the app id that is found, else goes up to the parent; it
/// ends without one at a process that cannot be read, at a reaper, and at the
/// top, where nothing is cached and no command line is read.
pub proof fn walks_go_up(pid: u32, name: Seq<char>, parent: u32, id: u32, cached: Option<u32>)
    ensures
        walk_from_stat(pid, None, cached) == (AppIdWalk::Done { app_id: 0 }),
        id != 0 ==> walk_from_stat(pid, Some((name, parent as int)), Some(id)) == (AppIdWalk::Done {
            app_id: id,
        }),
        name == "reaper"@ ==> walk_from_stat(pid, Some((name, parent as int)), Some(0)) == (
        AppIdWalk::Done { app_id: 0 }),
        name != "reaper"@ ==> walk_from_stat(pid, Some((name, parent as int)), Some(0)) == (
        AppIdWalk::ReadStat { pid: parent }),
        name == "reaper"@ ==> walk_from_stat(pid, Some((name, parent as int)), None) == (
        AppIdWalk::ReadCmdline { pid, parent_pid: parent, reaper: true }),
        name != "reaper"@ && parent != 0 && parent != 0xffff_ffff && pid != 1 ==> walk_from_stat(
            pid,
            Some((name, parent as int)),
            None,
        ) == (AppIdWalk::ReadCmdline { pid, parent_pid: parent, reaper: false }),
        name != "reaper"@ && (parent == 0 || parent == 0xffff_ffff || pid == 1) ==> walk_from_stat(
            pid,
            Some((name, parent as int)),
            None,
        ) == (AppIdWalk::Done { app_id: 0 }),
        id != 0 ==> walk_from_cmdline(parent, name == "reaper"@, id as int) == (AppIdWalk::Done {
            app_id: id,
        }),
        walk_from_cmdline(parent, true, 0) == (AppIdWalk::Done { app_id: 0 }),
        walk_from_cmdline(parent, false, 0) == (AppIdWalk::ReadStat { pid: parent }),
{
}

} // verus!
