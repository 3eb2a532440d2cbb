//! The cache of imported buffers.
//!
//! An import is found by its file descriptor, and reused only while the
//! parameters and the buffer behind the descriptor are the same. What was
//! replaced is kept until work in flight has drained. Making and destroying
//! images is left to the caller.
use vstd::prelude::*;

use crate::text;

verus! {

/// Nanoseconds after which an import that was not used is evicted.
pub const CACHE_TTL: u128 = 2_000_000_000;

/// Calls between two sweeps for imports that were not used.
pub const SWEEP_INTERVAL_CALLS: u32 = 60;

/// One plane of a buffer.
#[derive(Debug, Clone, Copy, PartialEq, Eq, Structural)]
pub struct DmaBufPlane {
    /// File descriptor.
    pub fd: i32,
    /// Where the plane starts in the buffer.
    pub offset: u32,
    /// Bytes of a row.
    pub stride: u32,
    /// Format modifier.
    pub modifier: u64,
}

/// Where a plane lies and how long its rows are.
#[derive(Debug, Clone, Copy, PartialEq, Eq, Structural)]
pub struct PlaneLayout {
    /// Where the plane starts in the buffer.
    pub offset: u32,
    /// Bytes of a row.
    pub stride: u32,
}

/// What identifies an import: a cached image may be reused only where all of
/// it matches.
#[derive(Debug, Clone, Copy, PartialEq, Eq, Structural)]
pub struct ImportParams {
    /// Width in pixels.
    pub width: u32,
    /// Height in pixels.
    pub height: u32,
    /// Pixel format, as its number.
    pub format: i32,
    /// Format modifier of the first plane.
    pub modifier: u64,
    /// Number of planes, at most four.
    pub plane_count: usize,
    /// Offset and stride of the first plane.
    pub plane_0: PlaneLayout,
    /// Offset and stride of the second plane.
    pub plane_1: PlaneLayout,
    /// Offset and stride of the third plane.
    pub plane_2: PlaneLayout,
    /// Offset and stride of the fourth plane.
    pub plane_3: PlaneLayout,
}

/// Offset and stride of plane `i`, nothing where there is none.
pub open spec fn layout_of(planes: Seq<DmaBufPlane>, i: int) -> PlaneLayout {
    if i < planes.len() {
        PlaneLayout { offset: planes[i].offset, stride: planes[i].stride }
    } else {
        PlaneLayout { offset: 0, stride: 0 }
    }
}

/// Offset and stride of plane `i`; see [`layout_of`].
fn layout_at(planes: &[DmaBufPlane], i: usize) -> (r: PlaneLayout)
    ensures
        r == layout_of(planes@, i as int),
{
    if i < planes.len() {
        PlaneLayout { offset: planes[i].offset, stride: planes[i].stride }
    } else {
        PlaneLayout { offset: 0, stride: 0 }
    }
}

/// What identifies an import of `planes`.
pub open spec fn params_of(
    width: u32,
    height: u32,
    format: i32,
    planes: Seq<DmaBufPlane>,
) -> ImportParams {
    ImportParams {
        width,
        height,
        format,
        modifier: if planes.len() > 0 {
            planes[0].modifier
        } else {
            0
        },
        plane_count: if planes.len() < 4 {
            planes.len() as usize
        } else {
            4
        },
        plane_0: layout_of(planes, 0),
        plane_1: layout_of(planes, 1),
        plane_2: layout_of(planes, 2),
        plane_3: layout_of(planes, 3),
    }
}

impl ImportParams {
    /// What identifies an import of `planes`; see [`params_of`].
    pub fn new(width: u32, height: u32, format: i32, planes: &[DmaBufPlane]) -> (r: Self)
        ensures
            r == params_of(width, height, format, planes@),
    {
        ImportParams {
            width,
            height,
            format,
            modifier: if planes.len() > 0 {
                planes[0].modifier
            } else {
                0
            },
            plane_count: if planes.len() < 4 {
                planes.len()
            } else {
                4
            },
            plane_0: layout_at(planes, 0),
            plane_1: layout_at(planes, 1),
            plane_2: layout_at(planes, 2),
            plane_3: layout_at(planes, 3),
        }
    }
}

/// Buffers of up to four planes with other layouts, formats or modifiers are
/// told apart.
pub proof fn params_tell_buffers_apart(
    width: u32,
    height: u32,
    a_format: i32,
    a: Seq<DmaBufPlane>,
    b_format: i32,
    b: Seq<DmaBufPlane>,
)
    requires
        params_of(width, height, a_format, a) == params_of(width, height, b_format, b),
        0 < a.len() <= 4,
        b.len() <= 4,
    ensures
        a_format == b_format,
        a.len() == b.len(),
        a[0].modifier == b[0].modifier,
        forall|i: int| #![trigger a[i]] 0 <= i < a.len() ==> a[i].offset == b[i].offset && a[i].stride == b[i].stride,
{
    assert forall|i: int| #![trigger a[i]] 0 <= i < a.len() implies a[i].offset == b[i].offset && a[i].stride
        == b[i].stride by {
        assert(i == 0 || i == 1 || i == 2 || i == 3);
        assert(layout_of(a, i) == layout_of(b, i));
    }
}

/// A cached import; image, memory and the duplicate of the descriptor are
/// handles that the caller knows.
#[derive(Debug, Clone, Copy, PartialEq, Eq, Structural)]
pub struct CachedImport {
    /// The descriptor under which it is found.
    pub key: i32,
    /// The image.
    pub image: u64,
    /// Its memory.
    pub memory: u64,
    /// What identifies it.
    pub params: ImportParams,
    /// A duplicate of the descriptor.
    pub fd: i32,
    /// When it was last used, in nanoseconds.
    pub last_used: u128,
}

/// The cache of imports.
#[derive(Debug)]
pub struct DmaBufImporter {
    /// Imports, each found by its descriptor.
    pub cache: Vec<CachedImport>,
    /// Imports whose descriptor now stands for another buffer, until work in
    /// flight has drained.
    pub retired: Vec<CachedImport>,
    /// Calls since the last sweep.
    pub calls_since_sweep: u32,
}

/// What to do with a buffer.
#[derive(Debug, Clone, Copy, PartialEq, Eq, Structural)]
pub enum Probe {
    /// Nothing is cached: import it.
    Import,
    /// An import with the same parameters is cached: reuse it if this
    /// duplicate still stands for the same buffer.
    Compare {
        /// The duplicate of the descriptor.
        fd: i32,
    },
}

/// Index of the import found by `key`, the number of imports if there is none.
pub open spec fn slot(cache: Seq<CachedImport>, key: i32) -> int
    decreases cache.len(),
{
    if cache.len() == 0 {
        0
    } else if cache[0].key == key {
        0
    } else {
        1 + slot(cache.drop_first(), key)
    }
}

/// Where the slot lies, and what lies before it.
pub proof fn slot_found(cache: Seq<CachedImport>, key: i32)
    ensures
        0 <= slot(cache, key) <= cache.len(),
        slot(cache, key) < cache.len() ==> cache[slot(cache, key)].key == key,
        forall|i: int| #![trigger cache[i]] 0 <= i < slot(cache, key) ==> cache[i].key != key,
    decreases cache.len(),
{
    if cache.len() > 0 && cache[0].key != key {
        slot_found(cache.drop_first(), key);
        assert forall|i: int| #![trigger cache[i]] 0 <= i < slot(cache, key) implies cache[i].key != key by {
            if i > 0 {
                assert(cache[i] == cache.drop_first()[i - 1]);
            }
        }
    }
}

/// A slot that fits is the one.
proof fn slot_is(cache: Seq<CachedImport>, key: i32, n: int)
    requires
        0 <= n <= cache.len(),
        n < cache.len() ==> cache[n].key == key,
        forall|i: int| #![trigger cache[i]] 0 <= i < n ==> cache[i].key != key,
    ensures
        slot(cache, key) == n,
{
    slot_found(cache, key);
}

/// The imports used since `cutoff`.
pub open spec fn used_since(cutoff: u128) -> spec_fn(CachedImport) -> bool {
    |c: CachedImport| c.last_used >= cutoff
}

/// The imports last used before `cutoff`.
pub open spec fn used_before(cutoff: u128) -> spec_fn(CachedImport) -> bool {
    |c: CachedImport| c.last_used < cutoff
}

impl DmaBufImporter {
    /// No descriptor is there twice, and a sweep is not overdue.
    pub open spec fn well_formed(self) -> bool {
        &&& forall|i: int, j: int|
            #![trigger self.cache@[i], self.cache@[j]]
            0 <= i < j < self.cache@.len() ==> self.cache@[i].key != self.cache@[j].key
        &&& self.calls_since_sweep < SWEEP_INTERVAL_CALLS
    }

    /// The import found by `key`.
    pub open spec fn cached(self, key: i32) -> Option<CachedImport> {
        let n = slot(self.cache@, key);
        if n < self.cache@.len() {
            Some(self.cache@[n])
        } else {
            None
        }
    }

    /// An empty cache.
    pub fn new() -> (r: Self)
        ensures
            r.well_formed(),
            r.cache@ == Seq::<CachedImport>::empty(),
            r.retired@ == Seq::<CachedImport>::empty(),
            r.calls_since_sweep == 0,
    {
        DmaBufImporter { cache: Vec::new(), retired: Vec::new(), calls_since_sweep: 0 }
    }

    /// Index of the import found by `key`.
    fn find(&self, key: i32) -> (r: usize)
        ensures
            r == slot(self.cache@, key),
            r <= self.cache@.len(),
    {
        let mut i: usize = 0;
        while i < self.cache.len()
            invariant
                i <= self.cache@.len(),
                forall|j: int| #![trigger self.cache@[j]] 0 <= j < i ==> self.cache@[j].key != key,
            decreases self.cache@.len() - i,
        {
            if self.cache[i].key == key {
                proof {
                    slot_is(self.cache@, key, i as int);
                }
                return i;
            }
            i = i + 1;
        }
        proof {
            slot_is(self.cache@, key, i as int);
        }
        i
    }

    /// Counts a call, and every [`SWEEP_INTERVAL_CALLS`] calls evicts what was
    /// not used for [`CACHE_TTL`]: the imports to be destroyed.
    pub fn begin(&mut self, now: u128) -> (r: Vec<CachedImport>)
        requires
            old(self).well_formed(),
            now >= CACHE_TTL,
        ensures
            final(self).well_formed(),
            if old(self).calls_since_sweep + 1 >= SWEEP_INTERVAL_CALLS {
                let cutoff = (now - CACHE_TTL) as u128;
                &&& final(self).calls_since_sweep == 0
                &&& final(self).cache@ == old(self).cache@.filter(used_since(cutoff))
                &&& final(self).retired@ == old(self).retired@.filter(used_since(cutoff))
                &&& r@ == old(self).cache@.filter(used_before(cutoff)) + old(self).retired@.filter(
                    used_before(cutoff),
                )
            } else {
                &&& final(self).calls_since_sweep == old(self).calls_since_sweep + 1
                &&& final(self).cache@ == old(self).cache@
                &&& final(self).retired@ == old(self).retired@
                &&& r@.len() == 0
            },
    {
        let calls: u32 = self.calls_since_sweep + 1;
        if calls >= SWEEP_INTERVAL_CALLS {
            self.calls_since_sweep = 0;
            self.evict_stale(now)
        } else {
            self.calls_since_sweep = calls;
            Vec::new()
        }
    }

    /// Evicts what was not used for [`CACHE_TTL`]: the imports to be destroyed.
    pub fn evict_stale(&mut self, now: u128) -> (r: Vec<CachedImport>)
        requires
            old(self).well_formed(),
            now >= CACHE_TTL,
        ensures
            final(self).well_formed(),
            final(self).calls_since_sweep == old(self).calls_since_sweep,
            final(self).cache@ == old(self).cache@.filter(used_since((now - CACHE_TTL) as u128)),
            final(self).retired@ == old(self).retired@.filter(used_since((now - CACHE_TTL) as u128)),
            r@ == old(self).cache@.filter(used_before((now - CACHE_TTL) as u128)) + old(
                self,
            ).retired@.filter(used_before((now - CACHE_TTL) as u128)),
    {
        let cutoff: u128 = now - CACHE_TTL;
        let (cache, mut evicted) = split_by_use(&self.cache, cutoff);
        let (retired, more) = split_by_use(&self.retired, cutoff);
        proof {
            filtered_stays_apart(self.cache@, used_since(cutoff));
        }
        let mut more = more;
        evicted.append(&mut more);
        self.cache = cache;
        self.retired = retired;
        evicted
    }

    /// Looks for an import of the buffer behind `fd`.
    pub fn probe(&self, fd: i32, params: &ImportParams) -> (r: Probe)
        ensures
            r == match self.cached(fd) {
                Some(c) if c.params == *params => Probe::Compare { fd: c.fd },
                _ => Probe::Import,
            },
    {
        let n = self.find(fd);
        if n < self.cache.len() {
            let c = self.cache[n];
            if c.params == *params {
                return Probe::Compare { fd: c.fd };
            }
        }
        Probe::Import
    }

    /// The probe was answered: `same_buffer` says that the duplicate that was
    /// to be compared stands for the same buffer. Gives the image to be
    /// reused: that of an import by `fd` with the same parameters, if it is of
    /// the same buffer. Else the import by `fd`, if any, is retired.
    pub fn reuse(&mut self, fd: i32, params: &ImportParams, same_buffer: bool, now: u128) -> (r: Option<
        u64,
    >)
        requires
            old(self).well_formed(),
        ensures
            r is Some <==> same_buffer && (old(self).cached(fd) matches Some(c) && c.params == *params),
            final(self).well_formed(),
            final(self).calls_since_sweep == old(self).calls_since_sweep,
            match old(self).cached(fd) {
                None => {
                    &&& r is None
                    &&& final(self).cache@ == old(self).cache@
                    &&& final(self).retired@ == old(self).retired@
                },
                Some(c) => {
                    let used = CachedImport { last_used: now, ..c };
                    if c.params == *params && same_buffer {
                        &&& r == Some(c.image)
                        &&& final(self).cache@ == old(self).cache@.update(
                            slot(old(self).cache@, fd),
                            used,
                        )
                        &&& final(self).retired@ == old(self).retired@
                    } else {
                        &&& r is None
                        &&& final(self).cache@ == old(self).cache@.remove(slot(old(self).cache@, fd))
                        &&& final(self).retired@ == old(self).retired@.push(used)
                    }
                },
            },
            r is None ==> final(self).cached(fd) is None,
    {
        let n = self.find(fd);
        proof {
            slot_found(self.cache@, fd);
        }
        if n < self.cache.len() {
            let c = self.cache[n];
            let used = CachedImport { last_used: now, ..c };
            if c.params == *params && same_buffer {
                self.cache.set(n, used);
                return Some(c.image);
            }
            let _ = self.cache.remove(n);
            self.retired.push(used);
            proof {
                let before = old(self).cache@;
                assert forall|i: int| #![trigger self.cache@[i]] 0 <= i < self.cache@.len() implies self.cache@[i].key
                    != fd by {
                    if i < n {
                        assert(self.cache@[i] == before[i]);
                    } else {
                        assert(self.cache@[i] == before[i + 1]);
                        assert(before[n as int].key != before[i + 1].key);
                    }
                }
                slot_is(self.cache@, fd, self.cache@.len() as int);
                assert forall|i: int, j: int|
                    #![trigger self.cache@[i], self.cache@[j]]
                    0 <= i < j < self.cache@.len() implies self.cache@[i].key != self.cache@[j].key by {
                    let a = if i < n { i } else { i + 1 };
                    let b = if j < n { j } else { j + 1 };
                    assert(self.cache@[i] == before[a] && self.cache@[j] == before[b]);
                }
            }
        }
        None
    }

    /// Keeps a new import.
    pub fn insert(&mut self, import: CachedImport)
        requires
            old(self).well_formed(),
            old(self).cached(import.key) is None,
        ensures
            final(self).well_formed(),
            final(self).calls_since_sweep == old(self).calls_since_sweep,
            final(self).cache@ == old(self).cache@.push(import),
            final(self).retired@ == old(self).retired@,
            final(self).cached(import.key) == Some(import),
    {
        proof {
            slot_found(self.cache@, import.key);
        }
        self.cache.push(import);
        proof {
            assert(self.cache@.len() == old(self).cache@.len() + 1);
            slot_is(self.cache@, import.key, self.cache@.len() - 1);
        }
    }
}

/// The imports used since `cutoff`, and the others.
fn split_by_use(imports: &Vec<CachedImport>, cutoff: u128) -> (r: (
    Vec<CachedImport>,
    Vec<CachedImport>,
))
    ensures
        r.0@ == imports@.filter(used_since(cutoff)),
        r.1@ == imports@.filter(used_before(cutoff)),
{
    let mut kept: Vec<CachedImport> = Vec::new();
    let mut evicted: Vec<CachedImport> = Vec::new();
    let mut i: usize = 0;
    proof {
        reveal(Seq::filter);
    }
    while i < imports.len()
        invariant
            i <= imports@.len(),
            kept@ == imports@.take(i as int).filter(used_since(cutoff)),
            evicted@ == imports@.take(i as int).filter(used_before(cutoff)),
        decreases imports@.len() - i,
    {
        let c = imports[i];
        proof {
            reveal(Seq::filter);
            assert(imports@.take(i + 1).drop_last() == imports@.take(i as int));
        }
        if c.last_used < cutoff {
            evicted.push(c);
        } else {
            kept.push(c);
        }
        i = i + 1;
    }
    assert(imports@.take(imports@.len() as int) == imports@);
    (kept, evicted)
}

/// What is left of a cache without doubles has none.
proof fn filtered_stays_apart(cache: Seq<CachedImport>, keep: spec_fn(CachedImport) -> bool)
    requires
        forall|i: int, j: int|
            #![trigger cache[i], cache[j]]
            0 <= i < j < cache.len() ==> cache[i].key != cache[j].key,
    ensures
        forall|i: int, j: int|
            #![trigger cache.filter(keep)[i], cache.filter(keep)[j]]
            0 <= i < j < cache.filter(keep).len() ==> cache.filter(keep)[i].key != cache.filter(
                keep,
            )[j].key,
    decreases cache.len(),
{
    reveal(Seq::filter);
    if cache.len() > 0 {
        let rest = cache.drop_last();
        assert forall|i: int, j: int| #![trigger rest[i], rest[j]] 0 <= i < j < rest.len() implies rest[i].key
            != rest[j].key by {
            assert(rest[i] == cache[i] && rest[j] == cache[j]);
        }
        filtered_stays_apart(rest, keep);
        if keep(cache.last()) {
            assert forall|i: int| #![trigger rest.filter(keep)[i]] 0 <= i < rest.filter(keep).len() implies rest.filter(
                keep,
            )[i].key != cache.last().key by {
                rest.lemma_filter_contains_rev(keep, rest.filter(keep)[i]);
                let k = choose|k: int| 0 <= k < rest.len() && rest[k] == rest.filter(keep)[i];
                assert(cache[k] == rest[k]);
            }
        }
    }
}

/// What an import hands to the device.
#[derive(Debug)]
pub struct ImportPlan {
    /// Offset and row pitch of each plane.
    pub plane_layouts: Vec<(u64, u64)>,
    /// The format modifier.
    pub modifier: u64,
    /// The descriptor whose memory is imported.
    pub fd: i32,
}

/// The plan to import `planes`, an error if there is none.
pub fn import_plan(planes: &[DmaBufPlane]) -> (r: Result<ImportPlan, String>)
    ensures
        match r {
            Ok(p) => {
                &&& planes@.len() > 0
                &&& p.plane_layouts@ == planes@.map_values(
                    |q: DmaBufPlane| (q.offset as u64, q.stride as u64),
                )
                &&& p.modifier == planes@[0].modifier
                &&& p.fd == planes@[0].fd
            },
            Err(e) => planes@.len() == 0 && e@ == "At least one DMA-BUF plane is required"@,
        },
{
    if planes.len() == 0 {
        return Err("At least one DMA-BUF plane is required".to_owned());
    }
    let mut plane_layouts: Vec<(u64, u64)> = Vec::new();
    let ghost widen = |q: DmaBufPlane| (q.offset as u64, q.stride as u64);
    let mut i: usize = 0;
    while i < planes.len()
        invariant
            i <= planes@.len(),
            plane_layouts@ == planes@.take(i as int).map_values(widen),
            widen == (|q: DmaBufPlane| (q.offset as u64, q.stride as u64)),
        decreases planes@.len() - i,
    {
        plane_layouts.push((planes[i].offset as u64, planes[i].stride as u64));
        i = i + 1;
    }
    assert(planes@.take(planes@.len() as int) == planes@);
    Ok(ImportPlan { plane_layouts, modifier: planes[0].modifier, fd: planes[0].fd })
}

/// What can go wrong when a buffer is imported, with what the device said.
#[derive(Debug)]
pub enum ImportFailure {
    /// The descriptor could not be duplicated for the cache.
    CacheDuplicate(String),
    /// The image could not be made.
    ImageCreation(String),
    /// The descriptor's memory could not be described.
    FdProperties(String),
    /// The descriptor could not be duplicated.
    Duplicate(String),
    /// No memory type suits both the image and the descriptor.
    NoMemoryType,
    /// The memory could not be imported.
    MemoryImport(String),
    /// The memory could not be bound.
    MemoryBind(String),
}

/// What is to be undone after a failure.
#[derive(Debug, Clone, Copy, PartialEq, Eq, Structural)]
pub struct Undo {
    /// Free the memory.
    pub free_memory: bool,
    /// Destroy the image.
    pub destroy_image: bool,
}

impl ImportFailure {
    /// The failure in words.
    pub open spec fn words(self) -> Seq<char> {
        match self {
            ImportFailure::CacheDuplicate(e) => "Failed to duplicate DMA-BUF FD for the import cache: "@
                + e@,
            ImportFailure::ImageCreation(e) => "DMA-BUF image creation: "@ + e@,
            ImportFailure::FdProperties(e) => "Failed to get memory FD properties: "@ + e@,
            ImportFailure::Duplicate(e) => "Failed to duplicate DMA-BUF FD: "@ + e@,
            ImportFailure::NoMemoryType => "No suitable memory type for DMA-BUF import"@,
            ImportFailure::MemoryImport(e) => "DMA-BUF memory import: "@ + e@,
            ImportFailure::MemoryBind(e) => "DMA-BUF memory bind: "@ + e@,
        }
    }

    /// The failure in words.
    pub fn message(&self) -> (r: String)
        ensures
            r@ == self.words(),
    {
        match self {
            ImportFailure::CacheDuplicate(e) => text::joined(
                "Failed to duplicate DMA-BUF FD for the import cache: ",
                e,
            ),
            ImportFailure::ImageCreation(e) => text::joined("DMA-BUF image creation: ", e),
            ImportFailure::FdProperties(e) => text::joined("Failed to get memory FD properties: ", e),
            ImportFailure::Duplicate(e) => text::joined("Failed to duplicate DMA-BUF FD: ", e),
            ImportFailure::NoMemoryType => "No suitable memory type for DMA-BUF import".to_owned(),
            ImportFailure::MemoryImport(e) => text::joined("DMA-BUF memory import: ", e),
            ImportFailure::MemoryBind(e) => text::joined("DMA-BUF memory bind: ", e),
        }
    }

    /// What is undone: once memory is involved, the image is destroyed, and
    /// memory that was not bound is freed.
    pub fn undo(&self) -> (r: Undo)
        ensures
            r.free_memory == (self is MemoryBind),
            r.destroy_image == (self is MemoryImport || self is MemoryBind),
    {
        match self {
            ImportFailure::MemoryImport(_) => Undo { free_memory: false, destroy_image: true },
            ImportFailure::MemoryBind(_) => Undo { free_memory: true, destroy_image: true },
            _ => Undo { free_memory: false, destroy_image: false },
        }
    }
}

/// The memory types that suit both the image and the descriptor.
pub fn combined_memory_types(image_type_bits: u32, fd_type_bits: u32) -> (r: u32)
    ensures
        r == image_type_bits & fd_type_bits,
{
    image_type_bits & fd_type_bits
}

/// An import that was used in time outlives a sweep.
pub proof fn fresh_imports_survive(cache: Seq<CachedImport>, c: CachedImport, now: u128)
    requires
        now >= CACHE_TTL,
        cache.contains(c),
        c.last_used + CACHE_TTL >= now,
    ensures
        cache.filter(used_since((now - CACHE_TTL) as u128)).contains(c),
{
    broadcast use vstd::seq_lib::group_filter_ensures;

    let keep = used_since((now - CACHE_TTL) as u128);
    assert(keep(c));
    let i = choose|i: int| 0 <= i < cache.len() && cache[i] == c;
    cache.lemma_filter_contains(keep, i);
}

/// What identifies an import is what was asked for: the size, the format, the
/// modifier of the first plane, and where each of up to four planes lies.
pub proof fn params_hold_what_was_asked_for(
    width: u32,
    height: u32,
    format: i32,
    planes: Seq<DmaBufPlane>,
)
    ensures
        ({
            let p = params_of(width, height, format, planes);
            &&& p.width == width && p.height == height && p.format == format
            &&& planes.len() <= 4 ==> p.plane_count == planes.len()
            &&& planes.len() >= 1 ==> p.modifier == planes[0].modifier && p.plane_0.offset
                == planes[0].offset && p.plane_0.stride == planes[0].stride
            &&& planes.len() >= 2 ==> p.plane_1.offset == planes[1].offset && p.plane_1.stride
                == planes[1].stride
            &&& planes.len() >= 3 ==> p.plane_2.offset == planes[2].offset && p.plane_2.stride
                == planes[2].stride
            &&& planes.len() >= 4 ==> p.plane_3.offset == planes[3].offset && p.plane_3.stride
                == planes[3].stride
            &&& planes.len() < 1 ==> p.modifier == 0 && p.plane_0.offset == 0 && p.plane_0.stride == 0
            &&& planes.len() < 2 ==> p.plane_1.offset == 0 && p.plane_1.stride == 0
            &&& planes.len() < 3 ==> p.plane_2.offset == 0 && p.plane_2.stride == 0
            &&& planes.len() < 4 ==> p.plane_3.offset == 0 && p.plane_3.stride == 0
        }),
{
}

/// An import that is cached is found by its descriptor, and no other is; one
/// that is not cached is not found.
pub proof fn imports_are_found(importer: DmaBufImporter, key: i32, i: int)
    requires
        importer.well_formed(),
    ensures
        0 <= i < importer.cache@.len() && importer.cache@[i].key == key ==> importer.cached(key) == Some(
            importer.cache@[i],
        ),
        importer.cached(key) matches Some(c) ==> c.key == key && importer.cache@.contains(c),
        importer.cached(key) is None ==> (0 <= i < importer.cache@.len() ==> importer.cache@[i].key
            != key),
{
    slot_found(importer.cache@, key);
    let n = slot(importer.cache@, key);
    if 0 <= i < importer.cache@.len() && importer.cache@[i].key == key && n < i {
        assert(importer.cache@[n].key != importer.cache@[i].key);
    }
}

/// A sweep evicts exactly the imports that were not used for two seconds: each
/// import is kept or evicted, and none is both.
pub proof fn stale_imports_are_evicted(imports: Seq<CachedImport>, c: CachedImport, now: u128)
    requires
        now >= 2_000_000_000,
    ensures
        imports.filter(used_since((now - CACHE_TTL) as u128)).contains(c) <==> imports.contains(c)
            && c.last_used >= now - 2_000_000_000,
        imports.filter(used_before((now - CACHE_TTL) as u128)).contains(c) <==> imports.contains(c)
            && c.last_used < now - 2_000_000_000,
{
    let cutoff = (now - CACHE_TTL) as u128;
    assert(cutoff == now - 2_000_000_000);
    filtered_holds(imports, used_since(cutoff), c);
    filtered_holds(imports, used_before(cutoff), c);
}

/// What is left is what is there and is to be kept.
proof fn filtered_holds(imports: Seq<CachedImport>, keep: spec_fn(CachedImport) -> bool, c: CachedImport)
    ensures
        imports.filter(keep).contains(c) <==> imports.contains(c) && keep(c),
{
    if imports.filter(keep).contains(c) {
        imports.lemma_filter_contains_rev(keep, c);
    }
    if imports.contains(c) && keep(c) {
        let i = choose|i: int| 0 <= i < imports.len() && imports[i] == c;
        imports.lemma_filter_contains(keep, i);
    }
}

/// Each failure is told with what the device said.
pub proof fn failures_say_why(said: String)
    ensures
        ImportFailure::CacheDuplicate(said).words()
            == "Failed to duplicate DMA-BUF FD for the import cache: "@ + said@,
        ImportFailure::ImageCreation(said).words() == "DMA-BUF image creation: "@ + said@,
        ImportFailure::FdProperties(said).words() == "Failed to get memory FD properties: "@ + said@,
        ImportFailure::Duplicate(said).words() == "Failed to duplicate DMA-BUF FD: "@ + said@,
        ImportFailure::NoMemoryType.words() == "No suitable memory type for DMA-BUF import"@,
        ImportFailure::MemoryImport(said).words() == "DMA-BUF memory import: "@ + said@,
        ImportFailure::MemoryBind(said).words() == "DMA-BUF memory bind: "@ + said@,
{
}

/// No more than four planes are told apart.
pub proof fn four_planes_are_told_apart(width: u32, height: u32, format: i32, planes: Seq<DmaBufPlane>)
    ensures
        params_of(width, height, format, planes).plane_count <= 4,
        planes.len() >= 4 ==> {
            &&& params_of(width, height, format, planes).plane_count == 4
            &&& params_of(width, height, format, planes) == params_of(
                width,
                height,
                format,
                planes.take(4),
            )
        },
{
}

} // verus!
