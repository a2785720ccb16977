//! LRU cache of directory listings, with a time-to-live, a bound on the number
//! of cached directories and a bound on the memory they take.
//!
//! Clock readings are handed in by the caller: `now` is a monotonic reading in
//! nanoseconds, and modification times are nanoseconds since the Unix epoch.

use vstd::prelude::*;
use crate::fs::FileEntry;
use crate::vfs::{VfsEntry, VfsPath, VfsPathView};

verus! {

/// A cached directory listing.
#[derive(Debug)]
pub struct CachedDirectory {
    pub entries: Vec<FileEntry>,
    /// Modification time of the directory when it was cached.
    pub last_modified: u128,
    /// Clock reading of the last access.
    pub last_accessed: u64,
    pub hit_count: u64,
    pub size_bytes: u64,
}

/// A cached listing of a virtual directory.
#[derive(Debug)]
pub struct CachedVfsDirectory {
    pub entries: Vec<VfsEntry>,
    pub last_accessed: u64,
    pub hit_count: u64,
}

/// Configuration of the directory cache.
#[derive(Debug, Clone, Copy)]
pub struct CacheConfig {
    /// Maximum number of directories to cache.
    pub max_entries: usize,
    /// Time to live of an entry, in nanoseconds.
    pub ttl: u64,
    /// Maximum memory the cached listings may take, in bytes.
    pub max_memory_bytes: u64,
    /// Whether frequently accessed directories are refreshed in the background.
    pub enable_background_refresh: bool,
    /// Hit count from which a directory counts as frequently accessed.
    pub frequent_access_threshold: u64,
}

impl Default for CacheConfig {
    fn default() -> (r: Self)
        ensures
            r.max_entries == 1000,
            r.ttl == 300_000_000_000u64,
            r.max_memory_bytes == 100 * 1024 * 1024,
            r.enable_background_refresh,
            r.frequent_access_threshold == 10,
    {
        CacheConfig {
            max_entries: 1000,
            ttl: 300_000_000_000u64,
            max_memory_bytes: 100 * 1024 * 1024,
            enable_background_refresh: true,
            frequent_access_threshold: 10,
        }
    }
}

/// Counters of the cache's activity.
#[derive(Debug, Clone, Copy)]
pub struct CacheStatistics {
    pub total_hits: u64,
    pub total_misses: u64,
    pub total_evictions: u64,
    pub total_refreshes: u64,
    pub average_entry_size: u64,
    pub current_entry_count: usize,
    pub current_memory_usage: u64,
}

impl Default for CacheStatistics {
    fn default() -> (r: Self)
        ensures
            r == zero_statistics(),
    {
        CacheStatistics {
            total_hits: 0,
            total_misses: 0,
            total_evictions: 0,
            total_refreshes: 0,
            average_entry_size: 0,
            current_entry_count: 0,
            current_memory_usage: 0,
        }
    }
}

/// Statistics with every counter at zero.
pub open spec fn zero_statistics() -> CacheStatistics {
    CacheStatistics {
        total_hits: 0,
        total_misses: 0,
        total_evictions: 0,
        total_refreshes: 0,
        average_entry_size: 0,
        current_entry_count: 0,
        current_memory_usage: 0,
    }
}

/// Bytes of the UTF-8 encoding of a character sequence, as `str::len` reports it.
pub open spec fn byte_len(s: Seq<char>) -> nat {
    vstd::utf8::encode_utf8(s).len() as usize as nat
}

/// Approximate memory taken by one cached file entry.
pub open spec fn entry_footprint(e: FileEntry) -> nat {
    vstd::layout::size_of::<FileEntry>() + byte_len(e.name@) + byte_len(e.path@) + byte_len(
        e.permissions@,
    ) + byte_len(e.size_display@) + match e.extension {
        Some(x) => byte_len(x@),
        None => 0,
    }
}

/// Approximate memory taken by a listing.
pub open spec fn listing_footprint(es: Seq<FileEntry>) -> nat
    decreases es.len(),
{
    if es.len() == 0 {
        0
    } else {
        listing_footprint(es.drop_last()) + entry_footprint(es.last())
    }
}

/// The abstract state of the file-system side of the cache.
pub struct CacheState {
    /// Cached listings by path, at most one per path.
    pub slots: Seq<(Seq<char>, CachedDirectory)>,
    /// Paths from least to most recently used (a path may occur more than once,
    /// and a path that left the cache may still occur).
    pub order: Seq<Seq<char>>,
    /// Tracked memory use.
    pub memory: u64,
    pub stats: CacheStatistics,
}

/// Whether some slot holds path `k`.
pub open spec fn has_key<K, V>(slots: Seq<(K, V)>, k: K) -> bool {
    exists|i: int| 0 <= i < slots.len() && #[trigger] slots[i].0 == k
}

/// The slot that holds path `k` (meaningful when `has_key`).
pub open spec fn key_index<K, V>(slots: Seq<(K, V)>, k: K) -> int {
    choose|i: int| 0 <= i < slots.len() && #[trigger] slots[i].0 == k
}

/// What is cached for path `k`.
pub open spec fn lookup<K, V>(slots: Seq<(K, V)>, k: K) -> Option<V> {
    if has_key(slots, k) {
        Some(slots[key_index(slots, k)].1)
    } else {
        None
    }
}

/// No two slots hold the same path.
pub open spec fn distinct_keys<K, V>(slots: Seq<(K, V)>) -> bool {
    forall|i: int, j: int|
        0 <= i < slots.len() && 0 <= j < slots.len() && i != j ==> #[trigger] slots[i].0
            != #[trigger] slots[j].0
}

/// `s` without the first occurrence of `k`.
pub open spec fn remove_first<A>(s: Seq<A>, k: A) -> Seq<A>
    decreases s.len(),
{
    if s.len() == 0 {
        s
    } else if s[0] == k {
        s.drop_first()
    } else {
        seq![s[0]] + remove_first(s.drop_first(), k)
    }
}

/// `slots` with the slot of `k` removed.
pub open spec fn remove_key<K, V>(slots: Seq<(K, V)>, k: K) -> Seq<(K, V)> {
    if has_key(slots, k) {
        slots.remove(key_index(slots, k))
    } else {
        slots
    }
}

/// `slots` with `k` mapped to `v`: the slot of `k` replaced in place, or a new
/// slot at the end.
pub open spec fn insert_key<K, V>(slots: Seq<(K, V)>, k: K, v: V) -> Seq<(K, V)> {
    if has_key(slots, k) {
        slots.update(key_index(slots, k), (k, v))
    } else {
        slots.push((k, v))
    }
}

/// Whether the put of a listing of `size` bytes must evict first.
pub open spec fn must_evict(s: CacheState, cfg: CacheConfig, size: nat) -> bool {
    s.slots.len() >= cfg.max_entries || s.memory + size > cfg.max_memory_bytes
}

/// One eviction: the least recently used path leaves the order and, if cached,
/// the cache (its bytes leave the tracked memory and the eviction is counted).
pub open spec fn evict_one(s: CacheState) -> CacheState {
    let k = s.order[0];
    if has_key(s.slots, k) {
        let d = lookup(s.slots, k).unwrap();
        CacheState {
            slots: remove_key(s.slots, k),
            order: s.order.drop_first(),
            memory: if s.memory >= d.size_bytes {
                (s.memory - d.size_bytes) as u64
            } else {
                0
            },
            stats: CacheStatistics {
                total_evictions: (s.stats.total_evictions + 1) as u64,
                ..s.stats
            },
        }
    } else {
        CacheState { order: s.order.drop_first(), ..s }
    }
}

/// Evictions until a listing of `size` bytes fits or nothing is left to evict.
pub open spec fn evict(s: CacheState, cfg: CacheConfig, size: nat) -> CacheState
    decreases s.order.len(),
{
    if must_evict(s, cfg, size) && s.order.len() > 0 {
        evict(evict_one(s), cfg, size)
    } else {
        s
    }
}

/// The state after a listing was stored: evictions, then the new slot.
pub open spec fn after_put(
    s: CacheState,
    cfg: CacheConfig,
    k: Seq<char>,
    d: CachedDirectory,
) -> CacheState {
    let e = evict(s, cfg, d.size_bytes as nat);
    let slots = insert_key(e.slots, k, d);
    let memory = (e.memory + d.size_bytes) as u64;
    CacheState {
        slots,
        order: e.order.push(k),
        memory,
        stats: CacheStatistics {
            current_entry_count: slots.len() as usize,
            current_memory_usage: memory,
            average_entry_size: if slots.len() > 0 {
                (memory / (slots.len() as u64)) as u64
            } else {
                e.stats.average_entry_size
            },
            ..e.stats
        },
    }
}

/// Whether an entry last accessed at `last` has outlived `ttl` at time `now`.
pub open spec fn expired(last: u64, now: u64, ttl: u64) -> bool {
    (if now >= last { now - last } else { 0 }) > ttl
}


/// The state after a lookup of `k` at time `now`: a fresh hit moves `k` to the
/// most recently used end and counts a hit; a miss or an expired entry counts
/// a miss.
pub open spec fn after_get(s: CacheState, k: Seq<char>, now: u64, ttl: u64) -> CacheState {
    match lookup(s.slots, k) {
        Some(d) => if expired(d.last_accessed, now, ttl) {
            CacheState {
                stats: CacheStatistics { total_misses: (s.stats.total_misses + 1) as u64, ..s.stats },
                ..s
            }
        } else {
            CacheState {
                slots: s.slots.update(
                    key_index(s.slots, k),
                    (
                        k,
                        CachedDirectory {
                            last_accessed: now,
                            hit_count: (d.hit_count + 1) as u64,
                            ..d
                        },
                    ),
                ),
                order: remove_first(s.order, k).push(k),
                memory: s.memory,
                stats: CacheStatistics { total_hits: (s.stats.total_hits + 1) as u64, ..s.stats },
            }
        },
        None => CacheState {
            stats: CacheStatistics { total_misses: (s.stats.total_misses + 1) as u64, ..s.stats },
            ..s
        },
    }
}

/// What a lookup of `k` at time `now` returns.
pub open spec fn get_result(s: CacheState, k: Seq<char>, now: u64, ttl: u64) -> Option<
    Seq<FileEntry>,
> {
    match lookup(s.slots, k) {
        Some(d) => if expired(d.last_accessed, now, ttl) {
            None
        } else {
            Some(d.entries@)
        },
        None => None,
    }
}

/// The state after `k` was invalidated.
pub open spec fn after_invalidate(s: CacheState, k: Seq<char>) -> CacheState {
    match lookup(s.slots, k) {
        Some(d) => {
            let slots = remove_key(s.slots, k);
            let memory = if s.memory >= d.size_bytes {
                (s.memory - d.size_bytes) as u64
            } else {
                0u64
            };
            CacheState {
                slots,
                order: remove_first(s.order, k),
                memory,
                stats: CacheStatistics {
                    current_entry_count: slots.len() as usize,
                    current_memory_usage: memory,
                    ..s.stats
                },
            }
        },
        None => s,
    }
}

pub proof fn lemma_key_index<K, V>(slots: Seq<(K, V)>, k: K, j: int)
    requires
        distinct_keys(slots),
        0 <= j < slots.len(),
        slots[j].0 == k,
    ensures
        has_key(slots, k),
        key_index(slots, k) == j,
        lookup(slots, k) == Some(slots[j].1),
{
    assert(slots[j].0 == k);
    let i = key_index(slots, k);
    assert(0 <= i < slots.len() && slots[i].0 == k);
}

pub proof fn lemma_first_index<A>(s: Seq<A>, k: A, i: int)
    requires
        0 <= i < s.len(),
        s[i] == k,
        forall|j: int| 0 <= j < i ==> s[j] != k,
    ensures
        remove_first(s, k) == s.remove(i),
    decreases i,
{
    if i == 0 {
        assert(s.drop_first() =~= s.remove(0));
    } else {
        assert forall|j: int| 0 <= j < i - 1 implies s.drop_first()[j] != k by {
            assert(s.drop_first()[j] == s[j + 1]);
        }
        lemma_first_index(s.drop_first(), k, i - 1);
        assert(seq![s[0]] + s.drop_first().remove(i - 1) =~= s.remove(i));
    }
}

pub proof fn lemma_remove_first_absent<A>(s: Seq<A>, k: A)
    requires
        !s.contains(k),
    ensures
        remove_first(s, k) == s,
    decreases s.len(),
{
    if s.len() > 0 {
        assert(s[0] != k);
        assert(!s.drop_first().contains(k)) by {
            if s.drop_first().contains(k) {
                let w = choose|w: int| 0 <= w < s.drop_first().len() && s.drop_first()[w] == k;
                assert(s[w + 1] == k);
            }
        }
        lemma_remove_first_absent(s.drop_first(), k);
        assert(seq![s[0]] + s.drop_first() =~= s);
    }
}

pub proof fn lemma_remove_key<K, V>(slots: Seq<(K, V)>, k: K)
    requires
        distinct_keys(slots),
    ensures
        distinct_keys(remove_key(slots, k)),
        !has_key(remove_key(slots, k), k),
        forall|k2: K| k2 != k ==> lookup(remove_key(slots, k), k2) == lookup(slots, k2),
        forall|k2: K| k2 != k ==> (has_key(remove_key(slots, k), k2) == has_key(slots, k2)),
        remove_key(slots, k).len() == (if has_key(slots, k) { slots.len() - 1 } else { slots.len() as int }),
{
    if has_key(slots, k) {
        let i = key_index(slots, k);
        let r = slots.remove(i);
        assert(r.len() == slots.len() - 1);
        assert forall|a: int| 0 <= a < r.len() implies #[trigger] r[a] == slots[if a < i { a } else { a + 1 }] by {}
        assert forall|a: int, b: int|
            0 <= a < r.len() && 0 <= b < r.len() && a != b implies #[trigger] r[a].0 != #[trigger] r[b].0 by {
            let a2 = if a < i { a } else { a + 1 };
            let b2 = if b < i { b } else { b + 1 };
            assert(r[a] == slots[a2]);
            assert(r[b] == slots[b2]);
        }
        assert forall|a: int| 0 <= a < r.len() implies #[trigger] r[a].0 != k by {
            let a2 = if a < i { a } else { a + 1 };
            assert(r[a] == slots[a2]);
        }
        assert forall|k2: K| k2 != k implies lookup(r, k2) == lookup(slots, k2) && has_key(r, k2) == has_key(slots, k2) by {
            if has_key(slots, k2) {
                let j = key_index(slots, k2);
                assert(j != i);
                let j2 = if j < i { j } else { j - 1 };
                assert(r[j2] == slots[j]);
                lemma_key_index(r, k2, j2);
            }
            if has_key(r, k2) {
                let j = key_index(r, k2);
                let j3 = if j < i { j } else { j + 1 };
                assert(r[j] == slots[j3]);
            }
        }
    }
}

pub proof fn lemma_insert_key<K, V>(slots: Seq<(K, V)>, k: K, v: V)
    requires
        distinct_keys(slots),
    ensures
        distinct_keys(insert_key(slots, k, v)),
        lookup(insert_key(slots, k, v), k) == Some(v),
        forall|k2: K| k2 != k ==> lookup(insert_key(slots, k, v), k2) == lookup(slots, k2),
        forall|k2: K| has_key(insert_key(slots, k, v), k2) == (k2 == k || has_key(slots, k2)),
        insert_key(slots, k, v).len() == (if has_key(slots, k) { slots.len() as int } else { slots.len() + 1 as int }),
{
    let r = insert_key(slots, k, v);
    if has_key(slots, k) {
        let i = key_index(slots, k);
        assert forall|a: int, b: int|
            0 <= a < r.len() && 0 <= b < r.len() && a != b implies #[trigger] r[a].0 != #[trigger] r[b].0 by {
        }
        lemma_key_index(r, k, i);
        assert forall|k2: K| k2 != k implies lookup(r, k2) == lookup(slots, k2) by {
            if has_key(slots, k2) {
                let j = key_index(slots, k2);
                lemma_key_index(r, k2, j);
            }
            if has_key(r, k2) {
                let j = key_index(r, k2);
                assert(r[j] == slots[j]);
            }
        }
        assert forall|k2: K| has_key(r, k2) == (k2 == k || has_key(slots, k2)) by {
            if has_key(slots, k2) {
                let j = key_index(slots, k2);
                assert(r[j].0 == k2);
            }
            if has_key(r, k2) {
                let j = key_index(r, k2);
                assert(r[j].0 == k2);
            }
        }
    } else {
        assert forall|a: int, b: int|
            0 <= a < r.len() && 0 <= b < r.len() && a != b implies #[trigger] r[a].0 != #[trigger] r[b].0 by {
            if a == slots.len() as int {
                assert(slots[b].0 != k);
            }
            if b == slots.len() as int {
                assert(slots[a].0 != k);
            }
        }
        lemma_key_index(r, k, slots.len() as int);
        assert forall|k2: K| k2 != k implies lookup(r, k2) == lookup(slots, k2) by {
            if has_key(slots, k2) {
                let j = key_index(slots, k2);
                lemma_key_index(r, k2, j);
            }
            if has_key(r, k2) {
                let j = key_index(r, k2);
                assert(r[j] == slots[j]);
            }
        }
        assert forall|k2: K| has_key(r, k2) == (k2 == k || has_key(slots, k2)) by {
            if has_key(slots, k2) {
                let j = key_index(slots, k2);
                assert(r[j].0 == k2);
            }
            if has_key(r, k2) {
                let j = key_index(r, k2);
                assert(r[j].0 == k2);
            }
        }
    }
}


/// Removes the first occurrence of `k` from `order`.
fn remove_first_path(order: &mut Vec<String>, k: &str)
    ensures
        strings_view(final(order)@) == remove_first(strings_view(old(order)@), k@),
{
    let ghost v0 = strings_view(order@);
    let mut i: usize = 0;
    while i < order.len()
        invariant
            order@ == old(order)@,
            v0 == strings_view(order@),
            i <= order@.len(),
            forall|j: int| 0 <= j < i ==> v0[j] != k@,
        decreases order@.len() - i,
    {
        if crate::text::str_eq(order[i].as_str(), k) {
            proof {
                lemma_first_index(v0, k@, i as int);
            }
            order.remove(i);
            assert(strings_view(order@) =~= v0.remove(i as int));
            return;
        }
        i = i + 1;
    }
    proof {
        lemma_remove_first_absent(v0, k@);
    }
}

/// A copy of a listing.
pub fn clone_entries(v: &Vec<FileEntry>) -> (r: Vec<FileEntry>)
    ensures
        r@ == v@,
{
    let mut r: Vec<FileEntry> = Vec::new();
    let mut i: usize = 0;
    while i < v.len()
        invariant
            i <= v@.len(),
            r@ == v@.subrange(0, i as int),
        decreases v@.len() - i,
    {
        r.push(v[i].clone());
        i = i + 1;
        assert(r@ =~= v@.subrange(0, i as int));
    }
    assert(r@ =~= v@);
    r
}

proof fn lemma_footprint_prefix(es: Seq<FileEntry>, i: int)
    requires
        0 <= i < es.len(),
    ensures
        listing_footprint(es.subrange(0, i + 1)) == listing_footprint(es.subrange(0, i))
            + entry_footprint(es[i]),
        listing_footprint(es.subrange(0, i + 1)) <= listing_footprint(es),
    decreases es.len(),
{
    assert(es.subrange(0, i + 1).drop_last() =~= es.subrange(0, i));
    if i + 1 < es.len() {
        lemma_footprint_prefix(es.drop_last(), i);
        assert(es.drop_last().subrange(0, i + 1) =~= es.subrange(0, i + 1));
        assert(es.drop_last().subrange(0, i) =~= es.subrange(0, i));
    } else {
        assert(es.subrange(0, i + 1) =~= es);
    }
}

/// Byte length of a string.
fn byte_length(s: &String) -> (n: u64)
    ensures
        n == byte_len(s@),
{
    let n = s.as_str().len();
    n as u64
}

/// Approximate memory taken by a listing.
pub fn calculate_entry_size(entries: &[FileEntry]) -> (size: u64)
    requires
        listing_footprint(entries@) <= u64::MAX,
    ensures
        size == listing_footprint(entries@),
{
    let mut size: u64 = 0;
    let mut i: usize = 0;
    assert(entries@.subrange(0, 0) =~= Seq::<FileEntry>::empty());
    while i < entries.len()
        invariant
            i <= entries@.len(),
            listing_footprint(entries@) <= u64::MAX,
            size == listing_footprint(entries@.subrange(0, i as int)),
        decreases entries@.len() - i,
    {
        proof {
            lemma_footprint_prefix(entries@, i as int);
        }
        let e = &entries[i];
        let ext = match &e.extension {
            Some(x) => byte_length(x),
            None => 0,
        };
        size = size + core::mem::size_of::<FileEntry>() as u64;
        size = size + byte_length(&e.name);
        size = size + byte_length(&e.path);
        size = size + byte_length(&e.permissions);
        size = size + byte_length(&e.size_display);
        size = size + ext;
        i = i + 1;
    }
    assert(entries@.subrange(0, i as int) =~= entries@);
    size
}


pub proof fn lemma_remove_first_contains<A>(s: Seq<A>, k: A, k2: A)
    requires
        k2 != k,
    ensures
        remove_first(s, k).contains(k2) == s.contains(k2),
    decreases s.len(),
{
    if s.len() > 0 {
        let r = remove_first(s, k);
        if s[0] == k {
            lemma_drop_first_contains(s, k2);
        } else {
            lemma_remove_first_contains(s.drop_first(), k, k2);
            let t = remove_first(s.drop_first(), k);
            assert(r == seq![s[0]] + t);
            if s.contains(k2) {
                let j = choose|j: int| 0 <= j < s.len() && s[j] == k2;
                if j == 0 {
                    assert(r[0] == k2);
                } else {
                    assert(s.drop_first()[j - 1] == k2);
                    let w = choose|w: int| 0 <= w < t.len() && t[w] == k2;
                    assert(r[w + 1] == k2);
                }
            }
            if r.contains(k2) {
                let j = choose|j: int| 0 <= j < r.len() && r[j] == k2;
                if j == 0 {
                    assert(s[0] == k2);
                } else {
                    assert(t[j - 1] == k2);
                    let w = choose|w: int| 0 <= w < s.drop_first().len() && s.drop_first()[w] == k2;
                    assert(s[w + 1] == k2);
                }
            }
        }
    }
}

pub proof fn lemma_drop_first_contains<A>(s: Seq<A>, k2: A)
    requires
        s.len() > 0,
        s[0] != k2,
    ensures
        s.drop_first().contains(k2) == s.contains(k2),
{
    if s.contains(k2) {
        let j = choose|j: int| 0 <= j < s.len() && s[j] == k2;
        assert(s.drop_first()[j - 1] == s[j]);
    }
    if s.drop_first().contains(k2) {
        let j = choose|j: int| 0 <= j < s.drop_first().len() && s.drop_first()[j] == k2;
        assert(s[j + 1] == k2);
    }
}

/// The cache invariant, on the abstract state.
pub open spec fn state_wf(s: CacheState) -> bool {
    &&& distinct_keys(s.slots)
    &&& forall|k: Seq<char>| has_key(s.slots, k) ==> s.order.contains(k)
}

proof fn lemma_evict_one_wf(s: CacheState)
    requires
        state_wf(s),
        s.order.len() > 0,
    ensures
        state_wf(evict_one(s)),
        evict_one(s).memory <= s.memory,
        evict_one(s).order.len() == s.order.len() - 1,
        evict_one(s).stats.total_evictions <= s.stats.total_evictions + 1,
{
    let k = s.order[0];
    lemma_remove_key(s.slots, k);
    let e = evict_one(s);
    assert forall|k2: Seq<char>| has_key(e.slots, k2) implies e.order.contains(k2) by {
        if k2 == k {
        } else {
            lemma_drop_first_contains(s.order, k2);
        }
    }
}

proof fn lemma_evict_wf(s: CacheState, cfg: CacheConfig, size: nat)
    requires
        state_wf(s),
    ensures
        state_wf(evict(s, cfg, size)),
        evict(s, cfg, size).memory <= s.memory,
        evict(s, cfg, size).stats.total_evictions <= s.stats.total_evictions + s.order.len(),
    decreases s.order.len(),
{
    if must_evict(s, cfg, size) && s.order.len() > 0 {
        lemma_evict_one_wf(s);
        lemma_evict_wf(evict_one(s), cfg, size);
    }
}


/// The cached paths hit at least `t` times, in slot order.
pub open spec fn frequent_keys(slots: Seq<(Seq<char>, CachedDirectory)>, t: u64) -> Seq<Seq<char>>
    decreases slots.len(),
{
    if slots.len() == 0 {
        Seq::empty()
    } else if slots.last().1.hit_count >= t {
        frequent_keys(slots.drop_last(), t).push(slots.last().0)
    } else {
        frequent_keys(slots.drop_last(), t)
    }
}


/// The abstract state of the virtual side of the cache.
pub struct VfsCacheState {
    pub slots: Seq<(VfsPathView, CachedVfsDirectory)>,
    pub order: Seq<VfsPathView>,
}

/// The invariant of the virtual side.
pub open spec fn vfs_state_wf(s: VfsCacheState) -> bool {
    &&& distinct_keys(s.slots)
    &&& forall|k: VfsPathView| has_key(s.slots, k) ==> s.order.contains(k)
}

/// Evictions on the virtual side until fewer than `max` listings are cached or
/// the access order is exhausted; every step counts an eviction.
pub open spec fn vfs_evict(s: VfsCacheState, st: CacheStatistics, max: usize) -> (
    VfsCacheState,
    CacheStatistics,
)
    decreases s.order.len(),
{
    if s.slots.len() >= max && s.order.len() > 0 {
        vfs_evict(
            VfsCacheState { slots: remove_key(s.slots, s.order[0]), order: s.order.drop_first() },
            CacheStatistics { total_evictions: (st.total_evictions + 1) as u64, ..st },
            max,
        )
    } else {
        (s, st)
    }
}

/// The state after a virtual listing was stored; `fs_count` is the number of
/// cached file-system listings.
pub open spec fn after_put_vfs(
    s: VfsCacheState,
    st: CacheStatistics,
    max: usize,
    k: VfsPathView,
    d: CachedVfsDirectory,
    fs_count: nat,
) -> (VfsCacheState, CacheStatistics) {
    let (e, est) = vfs_evict(s, st, max);
    let slots = insert_key(e.slots, k, d);
    (
        VfsCacheState { slots, order: e.order.push(k) },
        CacheStatistics { current_entry_count: (slots.len() + fs_count) as usize, ..est },
    )
}

/// The virtual side after a lookup of `k` at time `now`, with the statistics.
pub open spec fn after_get_vfs(
    s: VfsCacheState,
    st: CacheStatistics,
    k: VfsPathView,
    now: u64,
    ttl: u64,
) -> (VfsCacheState, CacheStatistics) {
    match lookup(s.slots, k) {
        Some(d) => if expired(d.last_accessed, now, ttl) {
            (s, CacheStatistics { total_misses: (st.total_misses + 1) as u64, ..st })
        } else {
            (
                VfsCacheState {
                    slots: s.slots.update(
                        key_index(s.slots, k),
                        (k, CachedVfsDirectory { last_accessed: now, hit_count: (d.hit_count + 1) as u64, ..d }),
                    ),
                    order: remove_first(s.order, k).push(k),
                },
                CacheStatistics { total_hits: (st.total_hits + 1) as u64, ..st },
            )
        },
        None => (s, CacheStatistics { total_misses: (st.total_misses + 1) as u64, ..st }),
    }
}

proof fn lemma_vfs_evict_wf(s: VfsCacheState, st: CacheStatistics, max: usize)
    requires
        vfs_state_wf(s),
    ensures
        vfs_state_wf(vfs_evict(s, st, max).0),
        vfs_evict(s, st, max).1.total_evictions <= st.total_evictions + s.order.len(),
        vfs_evict(s, st, max).1 == (CacheStatistics {
            total_evictions: vfs_evict(s, st, max).1.total_evictions,
            ..st
        }),
    decreases s.order.len(),
{
    if s.slots.len() >= max && s.order.len() > 0 {
        let k = s.order[0];
        lemma_remove_key(s.slots, k);
        let n = VfsCacheState { slots: remove_key(s.slots, k), order: s.order.drop_first() };
        assert forall|k2: VfsPathView| has_key(n.slots, k2) implies n.order.contains(k2) by {
            lemma_drop_first_contains(s.order, k2);
        }
        lemma_vfs_evict_wf(n, CacheStatistics { total_evictions: (st.total_evictions + 1) as u64, ..st }, max);
    }
}


/// A copy of a virtual listing.
pub fn clone_vfs_entries(v: &Vec<VfsEntry>) -> (r: Vec<VfsEntry>)
    ensures
        r@ == v@,
{
    let mut r: Vec<VfsEntry> = Vec::new();
    let mut i: usize = 0;
    while i < v.len()
        invariant
            i <= v@.len(),
            r@ == v@.subrange(0, i as int),
        decreases v@.len() - i,
    {
        r.push(v[i].clone());
        i = i + 1;
        assert(r@ =~= v@.subrange(0, i as int));
    }
    assert(r@ =~= v@);
    r
}


proof fn lemma_evict_post(s: CacheState, cfg: CacheConfig, size: nat)
    ensures
        !must_evict(evict(s, cfg, size), cfg, size) || evict(s, cfg, size).order.len() == 0,
    decreases s.order.len(),
{
    if must_evict(s, cfg, size) && s.order.len() > 0 {
        lemma_evict_post(evict_one(s), cfg, size);
    }
}

proof fn lemma_empty_order_empty_slots(s: CacheState)
    requires
        state_wf(s),
        s.order.len() == 0,
    ensures
        s.slots.len() == 0,
{
    if s.slots.len() > 0 {
        assert(has_key(s.slots, s.slots[0].0));
    }
}

/// A listing that was stored is returned by a lookup of the same path as long
/// as it has not outlived the time to live.
pub proof fn law_put_then_get(s: CacheState, cfg: CacheConfig, k: Seq<char>, d: CachedDirectory, now: u64)
    requires
        state_wf(s),
        !expired(d.last_accessed, now, cfg.ttl),
    ensures
        get_result(after_put(s, cfg, k, d), k, now, cfg.ttl) == Some(d.entries@),
{
    lemma_evict_wf(s, cfg, d.size_bytes as nat);
    lemma_insert_key(evict(s, cfg, d.size_bytes as nat).slots, k, d);
}

/// After a put, the cache holds at most `max_entries` listings (at least the
/// one just stored).
pub proof fn law_put_respects_capacity(s: CacheState, cfg: CacheConfig, k: Seq<char>, d: CachedDirectory)
    requires
        state_wf(s),
    ensures
        after_put(s, cfg, k, d).slots.len() <= (if cfg.max_entries >= 1 { cfg.max_entries as nat } else { 1nat }),
{
    let size = d.size_bytes as nat;
    lemma_evict_wf(s, cfg, size);
    lemma_evict_post(s, cfg, size);
    let e = evict(s, cfg, size);
    lemma_insert_key(e.slots, k, d);
    if e.order.len() == 0 {
        lemma_empty_order_empty_slots(e);
    }
}

/// An invalidated path is no longer served from the cache.
pub proof fn law_invalidate_then_get(s: CacheState, k: Seq<char>, now: u64, ttl: u64)
    requires
        state_wf(s),
    ensures
        get_result(after_invalidate(s, k), k, now, ttl) is None,
        state_wf(after_invalidate(s, k)),
{
    lemma_remove_key(s.slots, k);
    if has_key(s.slots, k) {
        let a = after_invalidate(s, k);
        assert forall|k2: Seq<char>| has_key(a.slots, k2) implies a.order.contains(k2) by {
            lemma_remove_first_contains(s.order, k, k2);
        }
    }
}

/// When the cache is full and memory is not the constraint, a put of a new path
/// evicts exactly the least recently used path and keeps every other one.
pub proof fn law_put_evicts_least_recently_used(
    s: CacheState,
    cfg: CacheConfig,
    k: Seq<char>,
    d: CachedDirectory,
)
    requires
        state_wf(s),
        s.slots.len() == cfg.max_entries,
        cfg.max_entries >= 1,
        s.memory + d.size_bytes <= cfg.max_memory_bytes,
        s.order.len() > 0,
        has_key(s.slots, s.order[0]),
        k != s.order[0],
        s.stats.total_evictions < u64::MAX,
    ensures
        !has_key(after_put(s, cfg, k, d).slots, s.order[0]),
        forall|k2: Seq<char>|
            k2 != s.order[0] && has_key(s.slots, k2) ==> #[trigger] has_key(after_put(s, cfg, k, d).slots, k2),
        after_put(s, cfg, k, d).stats.total_evictions == s.stats.total_evictions + 1,
{
    let size = d.size_bytes as nat;
    let lru = s.order[0];
    lemma_remove_key(s.slots, lru);
    let e1 = evict_one(s);
    assert(!must_evict(e1, cfg, size));
    assert(evict(s, cfg, size) == evict(e1, cfg, size));
    assert(evict(e1, cfg, size) == e1);
    lemma_insert_key(e1.slots, k, d);
}

/// A virtual listing that was stored is returned by a lookup of the same path
/// within the time to live.
pub proof fn law_put_vfs_then_get(
    s: VfsCacheState,
    st: CacheStatistics,
    max: usize,
    k: VfsPathView,
    d: CachedVfsDirectory,
    fs_count: nat,
    now: u64,
    ttl: u64,
)
    requires
        vfs_state_wf(s),
        !expired(d.last_accessed, now, ttl),
    ensures
        lookup(after_put_vfs(s, st, max, k, d, fs_count).0.slots, k) == Some(d),
{
    lemma_vfs_evict_wf(s, st, max);
    lemma_insert_key(vfs_evict(s, st, max).0.slots, k, d);
}

/// A lookup at time `now` of a path whose listing was last used at time
/// `last` returns nothing and counts a miss, leaving the listings as they
/// were, once more than the time to live has passed (`now - last > ttl`); as
/// long as no more than that has passed, it returns the listing and counts a
/// hit.
pub proof fn law_get_honours_time_to_live(s: CacheState, k: Seq<char>, now: u64, ttl: u64)
    requires
        s.stats.total_hits < u64::MAX,
        s.stats.total_misses < u64::MAX,
    ensures
        lookup(s.slots, k) matches Some(d) ==> (now - d.last_accessed > ttl ==> {
            &&& get_result(s, k, now, ttl) is None
            &&& after_get(s, k, now, ttl).slots == s.slots
            &&& after_get(s, k, now, ttl).stats.total_misses == s.stats.total_misses + 1
            &&& after_get(s, k, now, ttl).stats.total_hits == s.stats.total_hits
        }),
        lookup(s.slots, k) matches Some(d) ==> (now - d.last_accessed <= ttl ==> {
            &&& get_result(s, k, now, ttl) == Some(d.entries@)
            &&& after_get(s, k, now, ttl).stats.total_hits == s.stats.total_hits + 1
            &&& after_get(s, k, now, ttl).stats.total_misses == s.stats.total_misses
        }),
{
}

/// The same for virtual listings: a lookup more than the time to live after
/// the listing was last used returns nothing and counts a miss; one within it
/// returns the listing and counts a hit.
pub proof fn law_get_vfs_honours_time_to_live(
    s: VfsCacheState,
    st: CacheStatistics,
    k: VfsPathView,
    now: u64,
    ttl: u64,
)
    requires
        vfs_state_wf(s),
        st.total_hits < u64::MAX,
        st.total_misses < u64::MAX,
    ensures
        lookup(s.slots, k) matches Some(d) ==> (now - d.last_accessed > ttl ==> {
            &&& after_get_vfs(s, st, k, now, ttl).0 == s
            &&& after_get_vfs(s, st, k, now, ttl).1.total_misses == st.total_misses + 1
            &&& after_get_vfs(s, st, k, now, ttl).1.total_hits == st.total_hits
        }),
        lookup(s.slots, k) matches Some(d) ==> (now - d.last_accessed <= ttl ==> {
            &&& lookup(after_get_vfs(s, st, k, now, ttl).0.slots, k) matches Some(d2)
            &&& d2.entries@ == d.entries@
            &&& after_get_vfs(s, st, k, now, ttl).1.total_hits == st.total_hits + 1
            &&& after_get_vfs(s, st, k, now, ttl).1.total_misses == st.total_misses
        }),
{
    if has_key(s.slots, k) {
        let i = key_index(s.slots, k);
        let d = s.slots[i].1;
        let u = s.slots.update(
            i,
            (k, CachedVfsDirectory { last_accessed: now, hit_count: (d.hit_count + 1) as u64, ..d }),
        );
        assert forall|a: int, b: int|
            0 <= a < u.len() && 0 <= b < u.len() && a != b implies #[trigger] u[a].0 != #[trigger] u[b].0 by {
            assert(s.slots[a].0 != s.slots[b].0);
        }
        lemma_key_index(u, k, i);
    }
}

/// Errors of `DirectoryCache::put`.
#[derive(Debug, Clone, Copy, PartialEq, Eq)]
pub enum CacheError {
    /// The metadata of the directory could not be read.
    Metadata,
}

/// LRU cache for directory listings.
pub struct DirectoryCache {
    config: CacheConfig,
    slots: Vec<(String, CachedDirectory)>,
    access_order: Vec<String>,
    vfs_slots: Vec<(VfsPath, CachedVfsDirectory)>,
    vfs_access_order: Vec<VfsPath>,
    total_memory_usage: u64,
    statistics: CacheStatistics,
}

/// The view of a slot vector.
pub open spec fn slots_view(v: Seq<(String, CachedDirectory)>) -> Seq<(Seq<char>, CachedDirectory)> {
    v.map_values(|p: (String, CachedDirectory)| (p.0@, p.1))
}

/// The view of a vector of paths.
pub open spec fn strings_view(v: Seq<String>) -> Seq<Seq<char>> {
    v.map_values(|p: String| p@)
}

impl DirectoryCache {
    /// The abstract state of the file-system side.
    pub closed spec fn state(&self) -> CacheState {
        CacheState {
            slots: slots_view(self.slots@),
            order: strings_view(self.access_order@),
            memory: self.total_memory_usage,
            stats: self.statistics,
        }
    }

    /// The configuration.
    pub closed spec fn config(&self) -> CacheConfig {
        self.config
    }

    /// The cache's invariant: one slot per path, and every cached path occurs in
    /// the access order.
    pub closed spec fn wf(&self) -> bool {
        state_wf(self.state()) && vfs_state_wf(self.vfs_state())
    }

    /// An empty cache with the default configuration.
    pub fn new() -> (r: Self)
        ensures
            r.wf(),
            r.config() == (CacheConfig {
                max_entries: 1000,
                ttl: 300_000_000_000u64,
                max_memory_bytes: 104_857_600u64,
                enable_background_refresh: true,
                frequent_access_threshold: 10,
            }),
            r.state().slots.len() == 0,
            r.state().order.len() == 0,
            r.state().memory == 0,
            r.state().stats == zero_statistics(),
    {
        Self::with_config(CacheConfig::default())
    }

    /// An empty cache with the given configuration.
    pub fn with_config(config: CacheConfig) -> (r: Self)
        ensures
            r.wf(),
            r.config() == config,
            r.state().slots.len() == 0,
            r.state().order.len() == 0,
            r.state().memory == 0,
            r.state().stats == zero_statistics(),
    {
        let r = DirectoryCache {
            config,
            slots: Vec::new(),
            access_order: Vec::new(),
            vfs_slots: Vec::new(),
            vfs_access_order: Vec::new(),
            total_memory_usage: 0,
            statistics: CacheStatistics::default(),
        };
        assert(slots_view(r.slots@) =~= Seq::empty());
        assert(strings_view(r.access_order@) =~= Seq::empty());
        assert(r.vfs_state().slots =~= Seq::empty());
        assert(r.vfs_state().order =~= Seq::empty());
        r
    }


    /// The abstract state of the virtual side: cached virtual listings and their
    /// access order.
    pub closed spec fn vfs_state(&self) -> VfsCacheState {
        VfsCacheState {
            slots: self.vfs_slots@.map_values(|p: (VfsPath, CachedVfsDirectory)| (p.0@, p.1)),
            order: self.vfs_access_order@.map_values(|p: VfsPath| p@),
        }
    }

    /// Looks up the listing of `path` at time `now`.  A listing older than the
    /// time to live is a miss and stays cached; a hit makes `path` the most
    /// recently used.
    pub fn get(&mut self, path: &str, now: u64) -> (r: Option<Vec<FileEntry>>)
        requires
            old(self).wf(),
            old(self).state().stats.total_hits < u64::MAX,
            old(self).state().stats.total_misses < u64::MAX,
            lookup(old(self).state().slots, path@) matches Some(d) ==> d.hit_count < u64::MAX,
        ensures
            final(self).wf(),
            final(self).config() == old(self).config(),
            final(self).vfs_state() == old(self).vfs_state(),
            final(self).state() == after_get(old(self).state(), path@, now, old(self).config().ttl),
            r matches Some(v) ==> get_result(old(self).state(), path@, now, old(self).config().ttl)
                == Some(v@),
            r is None ==> get_result(old(self).state(), path@, now, old(self).config().ttl) is None,
    {
        let ghost s0 = self.state();
        match self.find_slot(path) {
            None => {
                self.statistics.total_misses = self.statistics.total_misses + 1;
                None
            },
            Some(i) => {
                proof {
                    assert(s0.slots[i as int].0 == path@);
                    lemma_key_index(s0.slots, path@, i as int);
                }
                let last = self.slots[i].1.last_accessed;
                let elapsed = if now >= last {
                    now - last
                } else {
                    0
                };
                if elapsed > self.config.ttl {
                    self.statistics.total_misses = self.statistics.total_misses + 1;
                    return None;
                }
                let (p, mut d) = self.slots.remove(i);
                d.last_accessed = now;
                d.hit_count = d.hit_count + 1;
                let out = clone_entries(&d.entries);
                self.slots.insert(i, (p, d));
                remove_first_path(&mut self.access_order, path);
                self.access_order.push(path.to_owned());
                self.statistics.total_hits = self.statistics.total_hits + 1;
                proof {
                    assert(self.state().slots =~= s0.slots.update(
                        i as int,
                        (
                            path@,
                            CachedDirectory {
                                last_accessed: now,
                                hit_count: (s0.slots[i as int].1.hit_count + 1) as u64,
                                ..s0.slots[i as int].1
                            },
                        ),
                    ));
                    assert(self.state().order =~= remove_first(s0.order, path@).push(path@));
                    let s1 = self.state();
                    assert forall|a: int, b: int|
                        0 <= a < s1.slots.len() && 0 <= b < s1.slots.len() && a != b implies #[trigger] s1.slots[a].0
                            != #[trigger] s1.slots[b].0 by {
                        assert(s1.slots[a].0 == s0.slots[a].0);
                        assert(s1.slots[b].0 == s0.slots[b].0);
                    }
                    assert forall|k: Seq<char>| has_key(s1.slots, k) implies s1.order.contains(k) by {
                        let j = key_index(s1.slots, k);
                        assert(s1.slots[j].0 == s0.slots[j].0);
                        assert(has_key(s0.slots, k));
                        if k == path@ {
                            assert(s1.order[s1.order.len() - 1] == k);
                        } else {
                            lemma_remove_first_contains(s0.order, path@, k);
                            assert(remove_first(s0.order, path@).contains(k));
                            let w = choose|w: int| 0 <= w < remove_first(s0.order, path@).len() && remove_first(s0.order, path@)[w] == k;
                            assert(s1.order[w] == k);
                        }
                    }
                }
                Some(out)
            },
        }
    }

    /// Stores the listing of `path`.  First the least recently used listings are
    /// evicted while the cache is full or the new listing would exceed the
    /// memory bound; then `dir_modified`, the modification time read from the
    /// directory's metadata (`None` when that metadata could not be read), is
    /// recorded with the listing, or the put fails.
    pub fn put(
        &mut self,
        path: &str,
        entries: Vec<FileEntry>,
        dir_modified: Option<u128>,
        now: u64,
    ) -> (r: Result<(), CacheError>)
        requires
            old(self).wf(),
            listing_footprint(entries@) <= u64::MAX,
            old(self).state().memory + listing_footprint(entries@) <= u64::MAX,
            old(self).state().stats.total_evictions + old(self).state().order.len() <= u64::MAX,
        ensures
            final(self).wf(),
            final(self).config() == old(self).config(),
            final(self).vfs_state() == old(self).vfs_state(),
            match dir_modified {
                None => r == Err::<(), CacheError>(CacheError::Metadata) && final(self).state()
                    == evict(old(self).state(), old(self).config(), listing_footprint(entries@)),
                Some(m) => r == Ok::<(), CacheError>(()) && final(self).state() == after_put(
                    old(self).state(),
                    old(self).config(),
                    path@,
                    CachedDirectory {
                        entries,
                        last_modified: m,
                        last_accessed: now,
                        hit_count: 0,
                        size_bytes: listing_footprint(entries@) as u64,
                    },
                ),
            },
    {
        let size = calculate_entry_size(entries.as_slice());
        let ghost s0 = self.state();
        let ghost cfg = self.config;
        proof {
            lemma_evict_wf(s0, cfg, size as nat);
        }
        loop
            invariant
                self.wf(),
                self.config == cfg,
                self.vfs_state() == old(self).vfs_state(),
                evict(self.state(), cfg, size as nat) == evict(s0, cfg, size as nat),
                self.state().memory <= s0.memory,
                s0.memory + size <= u64::MAX,
                self.state().stats.total_evictions + self.state().order.len() <= u64::MAX,
            ensures
                self.wf(),
                self.config == cfg,
                self.vfs_state() == old(self).vfs_state(),
                self.state() == evict(s0, cfg, size as nat),
                self.state().memory <= s0.memory,
            decreases self.access_order@.len(),
        {
            let ghost before = self.state();
            if !(self.slots.len() >= self.config.max_entries || self.total_memory_usage + size
                > self.config.max_memory_bytes) {
                break;
            }
            if self.access_order.len() == 0 {
                break;
            }
            let lru = self.access_order.remove(0);
            assert(lru@ == before.order[0]);
            match self.find_slot(lru.as_str()) {
                Some(i) => {
                    proof {
                        lemma_key_index(before.slots, lru@, i as int);
                    }
                    let (_, evicted) = self.slots.remove(i);
                    self.total_memory_usage = if self.total_memory_usage >= evicted.size_bytes {
                        self.total_memory_usage - evicted.size_bytes
                    } else {
                        0
                    };
                    self.statistics.total_evictions = self.statistics.total_evictions + 1;
                    assert(self.state().slots =~= remove_key(before.slots, lru@));
                },
                None => {},
            }
            proof {
                assert(self.state().order =~= before.order.drop_first());
                assert(self.state() == evict_one(before));
                lemma_evict_one_wf(before);
            }
        }
        let m = match dir_modified {
            None => return Err(CacheError::Metadata),
            Some(m) => m,
        };
        let ghost e = self.state();
        let ghost d = CachedDirectory {
            entries,
            last_modified: m,
            last_accessed: now,
            hit_count: 0,
            size_bytes: size,
        };
        let cached = CachedDirectory {
            entries,
            last_modified: m,
            last_accessed: now,
            hit_count: 0,
            size_bytes: size,
        };
        match self.find_slot(path) {
            Some(i) => {
                proof {
                    lemma_key_index(e.slots, path@, i as int);
                }
                let (p, _) = self.slots.remove(i);
                self.slots.insert(i, (p, cached));
                assert(self.state().slots =~= insert_key(e.slots, path@, d));
            },
            None => {
                self.slots.push((path.to_owned(), cached));
                assert(self.state().slots =~= insert_key(e.slots, path@, d));
            },
        }
        self.access_order.push(path.to_owned());
        self.total_memory_usage = self.total_memory_usage + size;
        self.statistics.current_entry_count = self.slots.len();
        self.statistics.current_memory_usage = self.total_memory_usage;
        if self.statistics.current_entry_count > 0 {
            self.statistics.average_entry_size = self.total_memory_usage
                / (self.statistics.current_entry_count as u64);
        }
        proof {
            lemma_insert_key(e.slots, path@, d);
            assert(self.state().order =~= e.order.push(path@));
            let s1 = self.state();
            assert forall|k: Seq<char>| has_key(s1.slots, k) implies s1.order.contains(k) by {
                if k == path@ {
                    assert(s1.order[s1.order.len() - 1] == k);
                } else {
                    assert(e.order.contains(k));
                    let w = choose|w: int| 0 <= w < e.order.len() && e.order[w] == k;
                    assert(s1.order[w] == k);
                }
            }
        }
        Ok(())
    }


    /// Drops the listing of `path` from the cache.
    pub fn invalidate(&mut self, path: &str)
        requires
            old(self).wf(),
        ensures
            final(self).wf(),
            final(self).config() == old(self).config(),
            final(self).vfs_state() == old(self).vfs_state(),
            final(self).state() == after_invalidate(old(self).state(), path@),
    {
        let ghost s0 = self.state();
        match self.find_slot(path) {
            Some(i) => {
                proof {
                    lemma_key_index(s0.slots, path@, i as int);
                    lemma_remove_key(s0.slots, path@);
                }
                let (_, evicted) = self.slots.remove(i);
                self.total_memory_usage = if self.total_memory_usage >= evicted.size_bytes {
                    self.total_memory_usage - evicted.size_bytes
                } else {
                    0
                };
                remove_first_path(&mut self.access_order, path);
                self.statistics.current_entry_count = self.slots.len();
                self.statistics.current_memory_usage = self.total_memory_usage;
                proof {
                    assert(self.state().slots =~= remove_key(s0.slots, path@));
                    let s1 = self.state();
                    assert forall|k: Seq<char>| has_key(s1.slots, k) implies s1.order.contains(k) by {
                        lemma_remove_first_contains(s0.order, path@, k);
                    }
                }
            },
            None => {},
        }
    }

    /// Empties both sides of the cache.
    pub fn clear(&mut self)
        requires
            old(self).wf(),
        ensures
            final(self).wf(),
            final(self).config() == old(self).config(),
            final(self).state() == (CacheState {
                slots: Seq::empty(),
                order: Seq::empty(),
                memory: 0,
                stats: CacheStatistics {
                    current_entry_count: 0,
                    current_memory_usage: 0,
                    ..old(self).state().stats
                },
            }),
            final(self).vfs_state().slots.len() == 0,
            final(self).vfs_state().order.len() == 0,
    {
        self.slots.clear();
        self.vfs_slots.clear();
        self.access_order.clear();
        self.vfs_access_order.clear();
        self.total_memory_usage = 0;
        self.statistics.current_entry_count = 0;
        self.statistics.current_memory_usage = 0;
        assert(self.state().slots =~= Seq::empty());
        assert(self.state().order =~= Seq::empty());
        assert(self.vfs_state().slots =~= Seq::empty());
        assert(self.vfs_state().order =~= Seq::empty());
    }

    /// The cache's statistics.
    pub fn get_statistics(&self) -> (r: CacheStatistics)
        ensures
            r == self.state().stats,
    {
        self.statistics
    }

    /// Counts a background refresh.
    pub fn record_refresh(&mut self)
        requires
            old(self).state().stats.total_refreshes < u64::MAX,
        ensures
            final(self).config() == old(self).config(),
            final(self).vfs_state() == old(self).vfs_state(),
            final(self).wf() == old(self).wf(),
            final(self).state() == (CacheState {
                stats: CacheStatistics {
                    total_refreshes: (old(self).state().stats.total_refreshes + 1) as u64,
                    ..old(self).state().stats
                },
                ..old(self).state()
            }),
    {
        self.statistics.total_refreshes = self.statistics.total_refreshes + 1;
    }

    /// The cached paths that were hit at least `frequent_access_threshold` times.
    pub fn get_frequent_directories(&self) -> (r: Vec<String>)
        ensures
            strings_view(r@) == frequent_keys(self.state().slots, self.config().frequent_access_threshold),
    {
        let mut r: Vec<String> = Vec::new();
        let mut i: usize = 0;
        while i < self.slots.len()
            invariant
                i <= self.slots@.len(),
                strings_view(r@) == frequent_keys(
                    self.state().slots.subrange(0, i as int),
                    self.config.frequent_access_threshold,
                ),
            decreases self.slots@.len() - i,
        {
            let ghost pre = self.state().slots.subrange(0, i as int);
            assert(self.state().slots.subrange(0, i + 1).drop_last() =~= pre);
            if self.slots[i].1.hit_count >= self.config.frequent_access_threshold {
                r.push(self.slots[i].0.clone());
            }
            i = i + 1;
            assert(strings_view(r@) =~= frequent_keys(
                self.state().slots.subrange(0, i as int),
                self.config.frequent_access_threshold,
            ));
        }
        assert(self.state().slots.subrange(0, i as int) =~= self.state().slots);
        r
    }

    /// Whether the directory changed since it was cached: `dir_modified` is the
    /// modification time its metadata reports now (`None` when unreadable).
    pub fn is_stale(&self, path: &str, dir_modified: Option<u128>) -> (r: bool)
        requires
            self.wf(),
        ensures
            r == match lookup(self.state().slots, path@) {
                Some(d) => match dir_modified {
                    Some(m) => m > d.last_modified,
                    None => false,
                },
                None => false,
            },
    {
        match self.find_slot(path) {
            Some(i) => {
                proof {
                    lemma_key_index(self.state().slots, path@, i as int);
                }
                match dir_modified {
                    Some(m) => m > self.slots[i].1.last_modified,
                    None => false,
                }
            },
            None => false,
        }
    }

    /// Keeps the configuration: a cache takes its configuration when created.
    pub fn update_config(&self, _new_config: CacheConfig) {
    }


    /// The virtual slot holding `path`, if any.
    fn find_vfs_slot(&self, path: &VfsPath) -> (r: Option<usize>)
        ensures
            r matches Some(i) ==> i < self.vfs_slots@.len() && self.vfs_slots@[i as int].0@ == path@,
            r is None ==> !has_key(self.vfs_state().slots, path@),
    {
        let mut i: usize = 0;
        while i < self.vfs_slots.len()
            invariant
                i <= self.vfs_slots@.len(),
                forall|j: int| 0 <= j < i ==> self.vfs_slots@[j].0@ != path@,
            decreases self.vfs_slots@.len() - i,
        {
            if self.vfs_slots[i].0.same_as(path) {
                return Some(i);
            }
            i = i + 1;
        }
        assert(!has_key(self.vfs_state().slots, path@)) by {
            assert forall|j: int| 0 <= j < self.vfs_state().slots.len() implies #[trigger] self.vfs_state().slots[j].0
                != path@ by {
                assert(self.vfs_state().slots[j].0 == self.vfs_slots@[j].0@);
            }
        }
        None
    }

    /// Removes the first occurrence of `k` from the virtual access order.
    fn remove_first_vfs(&mut self, k: &VfsPath)
        ensures
            final(self).vfs_state().order == remove_first(old(self).vfs_state().order, k@),
            final(self).vfs_state().slots == old(self).vfs_state().slots,
            final(self).vfs_slots == old(self).vfs_slots,
            final(self).slots == old(self).slots,
            final(self).access_order == old(self).access_order,
            final(self).config == old(self).config,
            final(self).total_memory_usage == old(self).total_memory_usage,
            final(self).statistics == old(self).statistics,
    {
        let ghost v0 = self.vfs_state().order;
        let mut i: usize = 0;
        while i < self.vfs_access_order.len()
            invariant
                self.vfs_access_order@ == old(self).vfs_access_order@,
                self.vfs_slots == old(self).vfs_slots,
                self.slots == old(self).slots,
                self.access_order == old(self).access_order,
                self.config == old(self).config,
                self.total_memory_usage == old(self).total_memory_usage,
                self.statistics == old(self).statistics,
                v0 == self.vfs_state().order,
                i <= self.vfs_access_order@.len(),
                forall|j: int| 0 <= j < i ==> v0[j] != k@,
            decreases self.vfs_access_order@.len() - i,
        {
            if self.vfs_access_order[i].same_as(k) {
                proof {
                    lemma_first_index(v0, k@, i as int);
                }
                self.vfs_access_order.remove(i);
                assert(self.vfs_state().order =~= v0.remove(i as int));
                return;
            }
            i = i + 1;
        }
        proof {
            lemma_remove_first_absent(v0, k@);
        }
    }

    /// Looks up the virtual listing of `path` at time `now`.
    pub fn get_vfs(&mut self, path: &VfsPath, now: u64) -> (r: Option<Vec<VfsEntry>>)
        requires
            old(self).wf(),
            old(self).state().stats.total_hits < u64::MAX,
            old(self).state().stats.total_misses < u64::MAX,
            lookup(old(self).vfs_state().slots, path@) matches Some(d) ==> d.hit_count < u64::MAX,
        ensures
            final(self).wf(),
            final(self).config() == old(self).config(),
            final(self).state().slots == old(self).state().slots,
            final(self).state().order == old(self).state().order,
            final(self).state().memory == old(self).state().memory,
            (final(self).vfs_state(), final(self).state().stats) == after_get_vfs(
                old(self).vfs_state(),
                old(self).state().stats,
                path@,
                now,
                old(self).config().ttl,
            ),
            r matches Some(v) ==> lookup(old(self).vfs_state().slots, path@) matches Some(d)
                && !expired(d.last_accessed, now, old(self).config().ttl) && v@ == d.entries@,
            r is None ==> (lookup(old(self).vfs_state().slots, path@) matches Some(d) ==> expired(
                d.last_accessed,
                now,
                old(self).config().ttl,
            )),
    {
        let ghost s0 = self.vfs_state();
        match self.find_vfs_slot(path) {
            None => {
                self.statistics.total_misses = self.statistics.total_misses + 1;
                None
            },
            Some(i) => {
                proof {
                    lemma_key_index(s0.slots, path@, i as int);
                }
                let last = self.vfs_slots[i].1.last_accessed;
                let elapsed = if now >= last {
                    now - last
                } else {
                    0
                };
                if elapsed > self.config.ttl {
                    self.statistics.total_misses = self.statistics.total_misses + 1;
                    return None;
                }
                let (p, mut d) = self.vfs_slots.remove(i);
                d.last_accessed = now;
                d.hit_count = d.hit_count + 1;
                let out = clone_vfs_entries(&d.entries);
                self.vfs_slots.insert(i, (p, d));
                self.remove_first_vfs(path);
                self.vfs_access_order.push(path.clone());
                self.statistics.total_hits = self.statistics.total_hits + 1;
                proof {
                    let s1 = self.vfs_state();
                    assert(s1.slots =~= s0.slots.update(
                        i as int,
                        (
                            path@,
                            CachedVfsDirectory {
                                last_accessed: now,
                                hit_count: (s0.slots[i as int].1.hit_count + 1) as u64,
                                ..s0.slots[i as int].1
                            },
                        ),
                    ));
                    assert(s1.order =~= remove_first(s0.order, path@).push(path@));
                    assert forall|a: int, b: int|
                        0 <= a < s1.slots.len() && 0 <= b < s1.slots.len() && a != b implies #[trigger] s1.slots[a].0
                            != #[trigger] s1.slots[b].0 by {
                        assert(s1.slots[a].0 == s0.slots[a].0);
                        assert(s1.slots[b].0 == s0.slots[b].0);
                    }
                    assert forall|k: VfsPathView| has_key(s1.slots, k) implies s1.order.contains(k) by {
                        let j = key_index(s1.slots, k);
                        assert(s1.slots[j].0 == s0.slots[j].0);
                        assert(has_key(s0.slots, k));
                        if k == path@ {
                            assert(s1.order[s1.order.len() - 1] == k);
                        } else {
                            lemma_remove_first_contains(s0.order, path@, k);
                            let w = choose|w: int| 0 <= w < remove_first(s0.order, path@).len() && remove_first(s0.order, path@)[w] == k;
                            assert(s1.order[w] == k);
                        }
                    }
                }
                Some(out)
            },
        }
    }

    /// Stores the virtual listing of `path`, evicting the least recently used
    /// virtual listings while as many as `max_entries` are cached.
    pub fn put_vfs(&mut self, path: &VfsPath, entries: Vec<VfsEntry>, now: u64)
        requires
            old(self).wf(),
            old(self).state().stats.total_evictions + old(self).vfs_state().order.len() <= u64::MAX,
            old(self).vfs_state().slots.len() + old(self).state().slots.len() < usize::MAX,
        ensures
            final(self).wf(),
            final(self).config() == old(self).config(),
            final(self).state().slots == old(self).state().slots,
            final(self).state().order == old(self).state().order,
            final(self).state().memory == old(self).state().memory,
            (final(self).vfs_state(), final(self).state().stats) == after_put_vfs(
                old(self).vfs_state(),
                old(self).state().stats,
                old(self).config().max_entries,
                path@,
                CachedVfsDirectory { entries, last_accessed: now, hit_count: 0 },
                old(self).state().slots.len(),
            ),
    {
        let ghost s0 = self.vfs_state();
        let ghost st0 = self.statistics;
        proof {
            lemma_vfs_evict_wf(s0, st0, self.config.max_entries);
        }
        while self.vfs_slots.len() >= self.config.max_entries
            invariant
                self.wf(),
                self.config == old(self).config,
                self.slots == old(self).slots,
                self.access_order == old(self).access_order,
                self.total_memory_usage == old(self).total_memory_usage,
                vfs_evict(self.vfs_state(), self.statistics, self.config.max_entries) == vfs_evict(
                    s0,
                    st0,
                    self.config.max_entries,
                ),
                self.statistics.total_evictions + self.vfs_state().order.len() <= u64::MAX,
                self.vfs_slots@.len() <= s0.slots.len(),
            ensures
                self.wf(),
                self.config == old(self).config,
                self.slots == old(self).slots,
                self.access_order == old(self).access_order,
                self.total_memory_usage == old(self).total_memory_usage,
                (self.vfs_state(), self.statistics) == vfs_evict(s0, st0, self.config.max_entries),
                self.vfs_slots@.len() <= s0.slots.len(),
            decreases self.vfs_access_order@.len(),
        {
            let ghost before = self.vfs_state();
            let ghost st_before = self.statistics;
            if self.vfs_access_order.len() == 0 {
                break;
            }
            let lru = self.vfs_access_order.remove(0);
            assert(lru@ == before.order[0]);
            proof {
                lemma_remove_key(before.slots, lru@);
            }
            match self.find_vfs_slot(&lru) {
                Some(i) => {
                    proof {
                        lemma_key_index(before.slots, lru@, i as int);
                    }
                    self.vfs_slots.remove(i);
                },
                None => {},
            }
            self.statistics.total_evictions = self.statistics.total_evictions + 1;
            proof {
                assert(self.vfs_state().slots =~= remove_key(before.slots, lru@));
                assert(self.vfs_state().order =~= before.order.drop_first());
                let n = self.vfs_state();
                assert forall|k2: VfsPathView| has_key(n.slots, k2) implies n.order.contains(k2) by {
                    lemma_drop_first_contains(before.order, k2);
                }
            }
        }
        let ghost e = self.vfs_state();
        let ghost d = CachedVfsDirectory { entries, last_accessed: now, hit_count: 0 };
        let cached = CachedVfsDirectory { entries, last_accessed: now, hit_count: 0 };
        match self.find_vfs_slot(path) {
            Some(i) => {
                proof {
                    lemma_key_index(e.slots, path@, i as int);
                }
                let (p, _) = self.vfs_slots.remove(i);
                self.vfs_slots.insert(i, (p, cached));
                assert(self.vfs_state().slots =~= insert_key(e.slots, path@, d));
            },
            None => {
                self.vfs_slots.push((path.clone(), cached));
                assert(self.vfs_state().slots =~= insert_key(e.slots, path@, d));
            },
        }
        self.vfs_access_order.push(path.clone());
        self.statistics.current_entry_count = self.vfs_slots.len() + self.slots.len();
        proof {
            lemma_insert_key(e.slots, path@, d);
            assert(self.vfs_state().order =~= e.order.push(path@));
            let s1 = self.vfs_state();
            assert forall|k: VfsPathView| has_key(s1.slots, k) implies s1.order.contains(k) by {
                if k == path@ {
                    assert(s1.order[s1.order.len() - 1] == k);
                } else {
                    assert(has_key(e.slots, k));
                    assert(e.order.contains(k));
                    let w = choose|w: int| 0 <= w < e.order.len() && e.order[w] == k;
                    assert(s1.order[w] == k);
                }
            }
        }
    }

    /// Drops the virtual listing of `path`.
    pub fn invalidate_vfs(&mut self, path: &VfsPath)
        requires
            old(self).wf(),
            old(self).vfs_state().slots.len() + old(self).state().slots.len() <= usize::MAX,
        ensures
            final(self).wf(),
            final(self).config() == old(self).config(),
            final(self).state().slots == old(self).state().slots,
            final(self).state().order == old(self).state().order,
            final(self).state().memory == old(self).state().memory,
            has_key(old(self).vfs_state().slots, path@) ==> final(self).vfs_state() == (VfsCacheState {
                slots: remove_key(old(self).vfs_state().slots, path@),
                order: remove_first(old(self).vfs_state().order, path@),
            }) && final(self).state().stats == (CacheStatistics {
                current_entry_count: (final(self).vfs_state().slots.len() + old(self).state().slots.len()) as usize,
                ..old(self).state().stats
            }),
            !has_key(old(self).vfs_state().slots, path@) ==> final(self).vfs_state() == old(
                self,
            ).vfs_state() && final(self).state().stats == old(self).state().stats,
    {
        let ghost s0 = self.vfs_state();
        match self.find_vfs_slot(path) {
            Some(i) => {
                proof {
                    lemma_key_index(s0.slots, path@, i as int);
                    lemma_remove_key(s0.slots, path@);
                }
                self.vfs_slots.remove(i);
                self.remove_first_vfs(path);
                self.statistics.current_entry_count = self.vfs_slots.len() + self.slots.len();
                proof {
                    assert(self.vfs_state().slots =~= remove_key(s0.slots, path@));
                    let s1 = self.vfs_state();
                    assert forall|k: VfsPathView| has_key(s1.slots, k) implies s1.order.contains(k) by {
                        lemma_remove_first_contains(s0.order, path@, k);
                    }
                }
            },
            None => {},
        }
    }

    /// The slot holding `path`, if any.
    fn find_slot(&self, path: &str) -> (r: Option<usize>)
        ensures
            r matches Some(i) ==> i < self.slots@.len() && self.slots@[i as int].0@ == path@,
            r is None ==> !has_key(self.state().slots, path@),
    {
        let mut i: usize = 0;
        while i < self.slots.len()
            invariant
                i <= self.slots@.len(),
                forall|j: int| 0 <= j < i ==> self.slots@[j].0@ != path@,
            decreases self.slots@.len() - i,
        {
            if crate::text::str_eq(self.slots[i].0.as_str(), path) {
                return Some(i);
            }
            i = i + 1;
        }
        assert(!has_key(self.state().slots, path@)) by {
            assert forall|j: int| 0 <= j < self.state().slots.len() implies #[trigger] self.state().slots[j].0
                != path@ by {
                assert(self.state().slots[j].0 == self.slots@[j].0@);
            }
        }
        None
    }
}

} // verus!
