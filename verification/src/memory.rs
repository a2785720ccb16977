//! Memory economy for large listings: a string pool, an object pool, a path
//! table, compact file entries and the bookkeeping that ties them together.

use vstd::prelude::*;
use std::sync::Arc;
use crate::cache;
use crate::fs::{FileEntry, FileType};
use crate::fs;
use crate::paths;
use crate::text;

verus! {

/// Counters of a string pool.
#[derive(Debug)]
pub struct StringPoolStats {
    pub total_strings: usize,
    pub unique_strings: usize,
    pub memory_saved: usize,
}

impl Default for StringPoolStats {
    fn default() -> (r: Self)
        ensures
            r.total_strings == 0,
            r.unique_strings == 0,
            r.memory_saved == 0,
    {
        StringPoolStats { total_strings: 0, unique_strings: 0, memory_saved: 0 }
    }
}

/// Calls `<Arc<String> as Clone>::clone`, which makes another pointer to the
/// same string.
#[verifier::external_body]
fn share(a: &Arc<String>) -> (r: Arc<String>)
    ensures
        r == *a,
{
    a.clone()
}

/// The strings a pool holds after interning `s`: unchanged where it holds `s`
/// already, else with `s` added at the end.
pub open spec fn interned(strings: Seq<Seq<char>>, s: Seq<char>) -> Seq<Seq<char>> {
    if strings.contains(s) {
        strings
    } else {
        strings.push(s)
    }
}

/// A pool of shared strings: each distinct string is stored once, and
/// interning it again hands out the stored copy.
pub struct StringPool {
    pool: Vec<Arc<String>>,
    stats: StringPoolStats,
}

impl StringPool {
    /// The distinct strings held, in the order they were first interned.
    pub closed spec fn strings(&self) -> Seq<Seq<char>> {
        self.pool@.map_values(|a: Arc<String>| a@)
    }

    /// Strings added since the pool was last cleared.
    pub closed spec fn total(&self) -> nat {
        self.stats.total_strings as nat
    }

    /// Distinct strings held, as counted.
    pub closed spec fn unique(&self) -> nat {
        self.stats.unique_strings as nat
    }

    /// Bytes that interning a string already held saved.
    pub closed spec fn saved(&self) -> nat {
        self.stats.memory_saved as nat
    }

    /// No string is held twice, and the count of distinct strings is right.
    pub closed spec fn wf(&self) -> bool {
        self.strings().no_duplicates() && self.stats.unique_strings == self.pool@.len()
    }

    /// An empty pool.
    pub fn new() -> (r: Self)
        ensures
            r.wf(),
            r.strings() == Seq::<Seq<char>>::empty(),
            r.total() == 0,
            r.unique() == 0,
            r.saved() == 0,
    {
        let r = StringPool { pool: Vec::new(), stats: StringPoolStats::default() };
        assert(r.strings() =~= Seq::<Seq<char>>::empty());
        r
    }

    /// The stored copy of `s`, stored first if the pool does not hold it yet.
    pub fn intern(&mut self, s: &str) -> (r: Arc<String>)
        requires
            old(self).wf(),
            old(self).saved() + cache::byte_len(s@) <= usize::MAX,
            old(self).total() < usize::MAX,
        ensures
            final(self).wf(),
            r@ == s@,
            final(self).strings() == interned(old(self).strings(), s@),
            old(self).strings().contains(s@) ==> final(self).total() == old(self).total()
                && final(self).saved() == old(self).saved() + cache::byte_len(s@),
            !old(self).strings().contains(s@) ==> final(self).total() == old(self).total() + 1
                && final(self).saved() == old(self).saved(),
            final(self).unique() == final(self).strings().len(),
    {
        let ghost strings = self.strings();
        let mut i: usize = 0;
        while i < self.pool.len()
            invariant
                strings == self.strings(),
                strings == old(self).strings(),
                self.wf(),
                self.stats.total_strings == old(self).total(),
                self.stats.memory_saved == old(self).saved(),
                self.stats.memory_saved + cache::byte_len(s@) <= usize::MAX,
                self.stats.total_strings < usize::MAX,
                i <= self.pool@.len(),
                forall|j: int| 0 <= j < i ==> strings[j] != s@,
            decreases self.pool@.len() - i,
        {
            if text_eq(&self.pool[i], s) {
                let found = share(&self.pool[i]);
                assert(strings[i as int] == s@);
                self.stats.memory_saved = self.stats.memory_saved + s.len();
                return found;
            }
            i = i + 1;
        }
        assert(!strings.contains(s@));
        let arc_str = Arc::new(s.to_string());
        self.pool.push(share(&arc_str));
        self.stats.total_strings = self.stats.total_strings + 1;
        self.stats.unique_strings = self.pool.len();
        assert(self.strings() =~= strings.push(s@));
        assert(self.strings().no_duplicates()) by {
            assert forall|a: int, b: int|
                0 <= a < self.strings().len() && 0 <= b < self.strings().len() && a != b implies
                self.strings()[a] != self.strings()[b] by {
                if a == strings.len() as int {
                    assert(strings[b] != s@);
                } else if b == strings.len() as int {
                    assert(strings[a] != s@);
                }
            }
        }
        arc_str
    }

    /// The pool's counters.
    pub fn get_stats(&self) -> (r: StringPoolStats)
        ensures
            r.total_strings == self.total(),
            r.unique_strings == self.unique(),
            r.memory_saved == self.saved(),
    {
        StringPoolStats {
            total_strings: self.stats.total_strings,
            unique_strings: self.stats.unique_strings,
            memory_saved: self.stats.memory_saved,
        }
    }

    /// Drops every string and resets the counters.
    pub fn clear(&mut self)
        ensures
            final(self).wf(),
            final(self).strings() == Seq::<Seq<char>>::empty(),
            final(self).total() == 0,
            final(self).unique() == 0,
            final(self).saved() == 0,
    {
        self.pool = Vec::new();
        self.stats = StringPoolStats::default();
        assert(self.strings() =~= Seq::<Seq<char>>::empty());
    }
}

/// Whether a shared string holds the given text.
fn text_eq(a: &Arc<String>, s: &str) -> (r: bool)
    ensures
        r == (a@ == s@),
{
    crate::text::str_eq(a.as_str(), s)
}

/// Interning a string a second time leaves the pool as the first time did.
pub proof fn law_intern_idempotent(strings: Seq<Seq<char>>, s: Seq<char>)
    ensures
        interned(interned(strings, s), s) == interned(strings, s),
{
    if !strings.contains(s) {
        assert(strings.push(s)[strings.len() as int] == s);
    }
}

/// An object handed out by a pool.
pub struct PooledObject<T> {
    object: T,
}

impl<T> PooledObject<T> {
    /// The object.
    pub closed spec fn value(&self) -> T {
        self.object
    }

    /// The object.
    pub fn get(&self) -> (r: &T)
        ensures
            *r == self.value(),
    {
        &self.object
    }

    /// The object, to change it.
    pub fn get_mut(&mut self) -> (r: &mut T)
        ensures
            *r == old(self).value(),
            final(self).value() == *final(r),
    {
        &mut self.object
    }
}

/// Whether `x` is a value that `T::default()` gives.
pub open spec fn is_default<T: Default>(x: T) -> bool {
    call_ensures(T::default, (), x)
}

/// A pool of reusable objects: objects are handed out from the idle ones
/// (made fresh when none is idle) and come back when released, while the pool
/// holds fewer idle objects than its maximum size.
pub struct ObjectPool<T> {
    available: Vec<T>,
    in_use: usize,
    capacity: usize,
    _max_size: usize,
}

impl<T: Clone + Default> ObjectPool<T> {
    /// The idle objects; the last one is handed out next.
    pub closed spec fn idle(&self) -> Seq<T> {
        self.available@
    }

    /// Objects handed out and not yet released.
    pub closed spec fn busy(&self) -> nat {
        self.in_use as nat
    }

    /// How many idle objects the pool keeps at most.
    pub closed spec fn room(&self) -> nat {
        self.capacity as nat
    }

    /// A pool with `initial_size` fresh idle objects that keeps at most
    /// `max_size` idle objects.
    pub fn new(initial_size: usize, max_size: usize) -> (r: Self)
        ensures
            r.idle().len() == initial_size,
            forall|i: int| 0 <= i < initial_size ==> is_default(#[trigger] r.idle()[i]),
            r.busy() == 0,
            r.room() == max_size,
    {
        let mut available: Vec<T> = Vec::new();
        let mut i: usize = 0;
        while i < initial_size
            invariant
                i <= initial_size,
                available@.len() == i,
                forall|j: int| 0 <= j < i ==> is_default(#[trigger] available@[j]),
            decreases initial_size - i,
        {
            let fresh = T::default();
            available.push(fresh);
            i = i + 1;
        }
        ObjectPool { available, in_use: 0, capacity: max_size, _max_size: max_size }
    }

    /// Hands out the last idle object, or a fresh one when none is idle.
    pub fn acquire(&mut self) -> (r: PooledObject<T>)
        requires
            old(self).busy() < usize::MAX,
        ensures
            final(self).busy() == old(self).busy() + 1,
            final(self).room() == old(self).room(),
            old(self).idle().len() > 0 ==> final(self).idle() == old(self).idle().drop_last()
                && r.value() == old(self).idle().last(),
            old(self).idle().len() == 0 ==> final(self).idle() == old(self).idle() && is_default(r.value()),
    {
        let obj = match self.available.pop() {
            Some(obj) => obj,
            None => T::default(),
        };
        self.in_use = self.in_use + 1;
        PooledObject { object: obj }
    }

    /// Takes an object back (what dropping it does): it becomes idle again
    /// while the pool holds fewer idle objects than its maximum size.
    pub fn release(&mut self, obj: PooledObject<T>)
        ensures
            final(self).busy() == (if old(self).busy() > 0 { old(self).busy() - 1 } else { 0 }),
            final(self).room() == old(self).room(),
            final(self).idle() == (if old(self).idle().len() < old(self).room() {
                old(self).idle().push(obj.value())
            } else {
                old(self).idle()
            }),
    {
        if self.available.len() < self.capacity {
            self.available.push(obj.object);
        }
        self.in_use = if self.in_use > 0 { self.in_use - 1 } else { 0 };
    }

    /// Idle objects and objects in use.
    pub fn stats(&self) -> (r: (usize, usize))
        ensures
            r.0 == self.idle().len(),
            r.1 == self.busy(),
    {
        (self.available.len(), self.in_use)
    }
}

/// The paths of a table after `p` is looked up or added.
pub open spec fn added(paths: Seq<Seq<char>>, p: Seq<char>) -> Seq<Seq<char>> {
    if paths.contains(p) {
        paths
    } else {
        paths.push(p)
    }
}

/// Sum of the byte lengths of the paths.
pub open spec fn total_bytes(paths: Seq<Seq<char>>) -> nat
    decreases paths.len(),
{
    if paths.len() == 0 {
        0
    } else {
        total_bytes(paths.drop_last()) + cache::byte_len(paths.last())
    }
}

/// The position `get_or_add` gives a path: where the table holds it, else the
/// next position (positions are 32-bit).
pub open spec fn position(paths: Seq<Seq<char>>, p: Seq<char>) -> u32 {
    if paths.contains(p) {
        paths.index_of(p) as u32
    } else {
        paths.len() as u32
    }
}

/// A table that stores each distinct path once and names it by its position.
pub struct PathTable {
    paths: Vec<String>,
}

impl PathTable {
    /// The stored paths, in the order they were added.
    pub closed spec fn paths(&self) -> Seq<Seq<char>> {
        cache::strings_view(self.paths@)
    }

    /// No path is stored twice.
    pub closed spec fn wf(&self) -> bool {
        self.paths().no_duplicates()
    }

    /// An empty table.
    pub fn new() -> (r: Self)
        ensures
            r.wf(),
            r.paths() == Seq::<Seq<char>>::empty(),
    {
        let r = PathTable { paths: Vec::new() };
        assert(r.paths() =~= Seq::<Seq<char>>::empty());
        r
    }

    /// The position of `path`, which is added at the end if the table does not
    /// hold it yet (positions are 32-bit).
    pub fn get_or_add(&mut self, path: &str) -> (r: u32)
        requires
            old(self).wf(),
        ensures
            final(self).wf(),
            final(self).paths() == added(old(self).paths(), path@),
            r == position(old(self).paths(), path@),
    {
        let ghost paths = self.paths();
        let mut i: usize = 0;
        while i < self.paths.len()
            invariant
                paths == self.paths(),
                paths.no_duplicates(),
                i <= self.paths@.len(),
                forall|j: int| 0 <= j < i ==> paths[j] != path@,
            decreases self.paths@.len() - i,
        {
            if crate::text::str_eq(self.paths[i].as_str(), path) {
                assert(paths[i as int] == path@);
                assert(paths.contains(path@));
                assert(paths.index_of(path@) == i as int);
                return i as u32;
            }
            i = i + 1;
        }
        assert(!paths.contains(path@));
        let idx = self.paths.len() as u32;
        self.paths.push(path.to_string());
        assert(self.paths() =~= paths.push(path@));
        assert(self.paths().no_duplicates()) by {
            assert forall|a: int, b: int|
                0 <= a < self.paths().len() && 0 <= b < self.paths().len() && a != b implies
                self.paths()[a] != self.paths()[b] by {
                if a == paths.len() as int {
                    assert(paths[b] != path@);
                } else if b == paths.len() as int {
                    assert(paths[a] != path@);
                }
            }
        }
        idx
    }

    /// The path at a position.
    pub fn get(&self, index: u32) -> (r: Option<String>)
        ensures
            r matches Some(p) ==> index < self.paths().len() && p@ == self.paths()[index as int],
            r is None ==> index >= self.paths().len(),
    {
        if (index as usize) < self.paths.len() {
            Some(self.paths[index as usize].clone())
        } else {
            None
        }
    }

    /// The number of paths and their total length in bytes (the length held at
    /// `usize::MAX`).
    pub fn stats(&self) -> (r: (usize, usize))
        ensures
            r.0 == self.paths().len(),
            r.1 == (if total_bytes(self.paths()) <= usize::MAX {
                total_bytes(self.paths())
            } else {
                usize::MAX as nat
            }),
    {
        let mut total: usize = 0;
        let mut over = false;
        let mut i: usize = 0;
        while i < self.paths.len()
            invariant
                i <= self.paths@.len(),
                over ==> total_bytes(self.paths().take(i as int)) > usize::MAX,
                !over ==> total == total_bytes(self.paths().take(i as int)),
            decreases self.paths@.len() - i,
        {
            let n = self.paths[i].as_str().len();
            assert(self.paths().take(i + 1).drop_last() =~= self.paths().take(i as int));
            proof {
                lemma_total_bytes_grows(self.paths().take(i + 1));
            }
            if !over {
                if total <= usize::MAX - n {
                    total = total + n;
                } else {
                    over = true;
                }
            }
            i = i + 1;
        }
        assert(self.paths().take(self.paths().len() as int) =~= self.paths());
        if over {
            (self.paths.len(), usize::MAX)
        } else {
            (self.paths.len(), total)
        }
    }
}

proof fn lemma_total_bytes_grows(paths: Seq<Seq<char>>)
    requires
        paths.len() > 0,
    ensures
        total_bytes(paths) >= total_bytes(paths.drop_last()),
{
}

/// A path table hands a path back at the position it gave it, while positions
/// fit in 32 bits.
pub proof fn law_get_after_add(paths: Seq<Seq<char>>, p: Seq<char>)
    requires
        paths.no_duplicates(),
        paths.len() < 0xffff_ffff,
    ensures
        (position(paths, p) as int) < added(paths, p).len(),
        added(paths, p)[position(paths, p) as int] == p,
{
    if paths.contains(p) {
        let i = choose|i: int| 0 <= i < paths.len() && paths[i] == p;
        assert(paths[paths.index_of(p)] == p);
    } else {
        assert(paths.push(p)[paths.len() as int] == p);
    }
}

/// The numbers 2 to the power 0 to 10.
pub open spec fn power_of_two(i: int) -> int {
    if i <= 0 {
        1
    } else if i == 1 {
        2
    } else if i == 2 {
        4
    } else if i == 3 {
        8
    } else if i == 4 {
        16
    } else if i == 5 {
        32
    } else if i == 6 {
        64
    } else if i == 7 {
        128
    } else if i == 8 {
        256
    } else if i == 9 {
        512
    } else {
        1024
    }
}

/// Whether character `i` of a permission string grants something (`r`, `w`
/// or `x`).
pub open spec fn grants(s: Seq<char>, i: int) -> bool {
    0 <= i < s.len() && (s[i] == 'r' || s[i] == 'w' || s[i] == 'x')
}

/// The number whose `n` binary digits, most significant first, say which of
/// the first `n` characters grant something.
pub open spec fn grant_bits(s: Seq<char>, n: nat) -> nat
    decreases n,
{
    if n == 0 {
        0
    } else {
        grant_bits(s, (n - 1) as nat) * 2 + if grants(s, n - 1) {
            1nat
        } else {
            0nat
        }
    }
}

/// The compact form of a permission string such as `drwxr-xr-x`: bit 9 - i
/// is set when character i (of the first ten) is `r`, `w` or `x`.
pub open spec fn compact_permissions(s: Seq<char>) -> nat {
    grant_bits(s, 10)
}

/// The permission string shown for a compact form: a directory's where bit 8
/// is set, else a plain file's.
pub open spec fn compact_permissions_text(p: u16) -> Seq<char> {
    if (p / 256) % 2 == 1 {
        "drwxr-xr-x"@
    } else {
        "-rw-r--r--"@
    }
}

fn parse_permissions(perm_str: &str) -> (r: u16)
    ensures
        r == compact_permissions(perm_str@),
{
    let cs = text::chars_of(perm_str);
    let mut perms: u16 = 0;
    let mut i: usize = 0;
    while i < 10
        invariant
            cs@ == perm_str@,
            i <= 10,
            perms == grant_bits(cs@, i as nat),
            perms < power_of_two(i as int),
        decreases 10 - i,
    {
        let bit: u16 = if i < cs.len() && (cs[i] == 'r' || cs[i] == 'w' || cs[i] == 'x') {
            1
        } else {
            0
        };
        assert(bit == (if grants(cs@, i as int) { 1nat } else { 0nat }));
        perms = perms * 2 + bit;
        i = i + 1;
    }
    perms
}

fn format_compact_permissions(perms: u16) -> (r: String)
    ensures
        r@ == compact_permissions_text(perms),
{
    if (perms / 256) % 2 == 1 {
        String::from_str("drwxr-xr-x")
    } else {
        String::from_str("-rw-r--r--")
    }
}

/// The one-byte code of an entry kind.
pub open spec fn type_code(t: FileType) -> u8 {
    match t {
        FileType::File => 0,
        FileType::Directory => 1,
        FileType::Symlink => 2,
        FileType::Other => 3,
    }
}

/// The entry kind of a one-byte code (unknown codes read as `Other`).
pub open spec fn type_of_code(c: u8) -> FileType {
    if c == 0 {
        FileType::File
    } else if c == 1 {
        FileType::Directory
    } else if c == 2 {
        FileType::Symlink
    } else {
        FileType::Other
    }
}

/// A file entry stored compactly: its path as a position in a path table, its
/// kind as a code, its time as Unix seconds (0 for none) and its permissions
/// as bits.
#[derive(Debug)]
pub struct CompressedFileEntry {
    pub name: String,
    pub path_index: u32,
    pub file_type: u8,
    pub size: u64,
    pub modified: u64,
    pub permissions: u16,
}

impl Clone for CompressedFileEntry {
    fn clone(&self) -> (r: Self)
        ensures
            r == *self,
    {
        CompressedFileEntry {
            name: self.name.clone(),
            path_index: self.path_index,
            file_type: self.file_type,
            size: self.size,
            modified: self.modified,
            permissions: self.permissions,
        }
    }
}

/// The compact fields of an entry, its path position aside.
pub open spec fn compressed_from(c: CompressedFileEntry, e: FileEntry) -> bool {
    &&& c.name@ == e.name@
    &&& c.file_type == type_code(e.file_type)
    &&& c.size == e.size
    &&& c.modified == (match e.modified {
        Some(t) => t as u64,
        None => 0u64,
    })
    &&& c.permissions == compact_permissions(e.permissions@)
}

/// Whether a compact entry can be expanded: its path position is in the
/// table, and its time (if any) is one chrono can represent.
pub open spec fn decodes(c: CompressedFileEntry, paths: Seq<Seq<char>>) -> bool {
    c.path_index < paths.len() && (c.modified == 0 || fs::utc_timestamp_in_range(c.modified as i64))
}

/// The entry expanded from a compact one, its size text aside.
pub open spec fn decoded_from(e: FileEntry, c: CompressedFileEntry, paths: Seq<Seq<char>>) -> bool {
    &&& e.name@ == c.name@
    &&& e.path@ == paths[c.path_index as int]
    &&& e.file_type == type_of_code(c.file_type)
    &&& e.size == c.size
    &&& e.modified == (if c.modified > 0 {
        Some(c.modified as i64)
    } else {
        None
    })
    &&& e.permissions@ == compact_permissions_text(c.permissions)
    &&& e.is_hidden == text::seq_starts_with(c.name@, seq!['.'])
    &&& (e.extension matches Some(x) ==> paths::path_extension(c.name@) == Some(x@))
    &&& (e.extension is None ==> paths::path_extension(c.name@) is None)
    &&& !e.is_selected
}

impl CompressedFileEntry {
    /// The compact form of an entry; its path is looked up in (or added to)
    /// the path table.
    pub fn from_entry(entry: &FileEntry, path_table: &mut PathTable, _string_pool: &StringPool) -> (r: Self)
        requires
            old(path_table).wf(),
        ensures
            final(path_table).wf(),
            final(path_table).paths() == added(old(path_table).paths(), entry.path@),
            r.path_index == position(old(path_table).paths(), entry.path@),
            compressed_from(r, *entry),
    {
        let name = entry.name.clone();
        let path_index = path_table.get_or_add(entry.path.as_str());
        let file_type: u8 = match entry.file_type {
            FileType::File => 0,
            FileType::Directory => 1,
            FileType::Symlink => 2,
            FileType::Other => 3,
        };
        let modified: u64 = match entry.modified {
            Some(t) => t as u64,
            None => 0,
        };
        let permissions = parse_permissions(entry.permissions.as_str());
        CompressedFileEntry { name, path_index, file_type, size: entry.size, modified, permissions }
    }

    /// The entry again, with its size shown by `format_size`; nothing where
    /// the path position is not in the table or the time is out of range.
    pub fn to_entry<F: Fn(u64) -> String>(&self, path_table: &PathTable, format_size: F) -> (r: Option<
        FileEntry,
    >)
        requires
            format_size.requires((self.size,)),
        ensures
            r is Some <==> decodes(*self, path_table.paths()),
            r matches Some(e) ==> decoded_from(e, *self, path_table.paths()) && format_size.ensures(
                (self.size,),
                e.size_display,
            ),
    {
        let path = match path_table.get(self.path_index) {
            Some(p) => p,
            None => return None,
        };
        let file_type = if self.file_type == 0 {
            FileType::File
        } else if self.file_type == 1 {
            FileType::Directory
        } else if self.file_type == 2 {
            FileType::Symlink
        } else {
            FileType::Other
        };
        let modified = if self.modified > 0 {
            match fs::utc_timestamp(self.modified as i64) {
                Some(t) => Some(t),
                None => return None,
            }
        } else {
            None
        };
        let name_chars = text::chars_of(self.name.as_str());
        let dot: [char; 1] = ['.'];
        let is_hidden = text::starts_with_chars(name_chars.as_slice(), dot.as_slice());
        assert(dot@ =~= seq!['.']);
        Some(FileEntry {
            name: self.name.clone(),
            path,
            file_type,
            size: self.size,
            size_display: format_size(self.size),
            modified,
            permissions: format_compact_permissions(self.permissions),
            is_hidden,
            extension: paths::extension(self.name.as_str()),
            is_selected: false,
        })
    }
}

/// Expanding the compact form of an entry gives back its name, path, kind and
/// size, and its time where it had a nonzero one.
pub proof fn law_compress_round_trip(e: FileEntry, c: CompressedFileEntry, paths: Seq<Seq<char>>, e2: FileEntry)
    requires
        compressed_from(c, e),
        c.path_index < paths.len(),
        paths[c.path_index as int] == e.path@,
        decoded_from(e2, c, paths),
    ensures
        e2.name@ == e.name@,
        e2.path@ == e.path@,
        e2.file_type == e.file_type,
        e2.size == e.size,
        e.modified matches Some(t) && t != 0 ==> e2.modified == e.modified,
{
    if let Some(t) = e.modified {
        if t != 0 {
            assert(t as u64 != 0u64 && ((t as u64) as i64) == t) by (bit_vector)
                requires
                    t != 0i64,
            ;
        }
    }
}

/// The paths of a table after the paths of some entries are looked up or
/// added in turn.
pub open spec fn add_paths(paths: Seq<Seq<char>>, es: Seq<FileEntry>) -> Seq<Seq<char>>
    decreases es.len(),
{
    if es.len() == 0 {
        paths
    } else {
        added(add_paths(paths, es.drop_last()), es.last().path@)
    }
}

/// Memory figures of a manager.
#[derive(Debug)]
pub struct MemoryStats {
    pub string_pool_strings: usize,
    pub string_pool_unique: usize,
    pub string_pool_saved: usize,
    pub path_table_entries: usize,
    pub path_table_size: usize,
    pub entry_pool_available: usize,
    pub entry_pool_in_use: usize,
    pub estimated_total: usize,
}

impl Clone for MemoryStats {
    fn clone(&self) -> (r: Self)
        ensures
            r == *self,
    {
        MemoryStats { ..*self }
    }
}

/// Estimated bytes in use: 50 per distinct pooled string, the bytes of the
/// stored paths, and one file entry per pooled entry in use.
pub open spec fn estimate(unique: nat, path_size: nat, in_use: nat) -> nat {
    unique * 50 + path_size + in_use * vstd::layout::size_of::<FileEntry>()
}

/// A value held at `usize::MAX`.
pub open spec fn capped(n: nat) -> nat {
    if n <= usize::MAX {
        n
    } else {
        usize::MAX as nat
    }
}

/// Pools, path table and a memory limit for the file listings.
pub struct MemoryManager {
    string_pool: StringPool,
    path_table: PathTable,
    entry_pool: ObjectPool<FileEntry>,
    memory_limit: usize,
}

impl MemoryManager {
    /// The string pool.
    pub closed spec fn strings(&self) -> StringPool {
        self.string_pool
    }

    /// The path table's paths.
    pub closed spec fn paths(&self) -> Seq<Seq<char>> {
        self.path_table.paths()
    }

    /// File entries of the entry pool in use.
    pub closed spec fn entries_in_use(&self) -> nat {
        self.entry_pool.busy()
    }

    /// Idle file entries of the entry pool.
    pub closed spec fn entries_idle(&self) -> nat {
        self.entry_pool.idle().len()
    }

    /// The memory limit in bytes.
    pub closed spec fn limit(&self) -> nat {
        self.memory_limit as nat
    }

    /// The pool and the table are well formed.
    pub closed spec fn wf(&self) -> bool {
        self.string_pool.wf() && self.path_table.wf()
    }

    /// A manager with a limit given in mebibytes, empty pools and an entry
    /// pool of 100 idle entries.
    pub fn new(memory_limit_mb: usize) -> (r: Self)
        requires
            memory_limit_mb * 1024 * 1024 <= usize::MAX,
        ensures
            r.wf(),
            r.limit() == memory_limit_mb * 1024 * 1024,
            r.strings().strings() == Seq::<Seq<char>>::empty(),
            r.strings().total() == 0,
            r.strings().unique() == 0,
            r.strings().saved() == 0,
            r.paths() == Seq::<Seq<char>>::empty(),
            r.entries_idle() == 100,
            r.entries_in_use() == 0,
    {
        MemoryManager {
            string_pool: StringPool::new(),
            path_table: PathTable::new(),
            entry_pool: ObjectPool::new(100, 1000),
            memory_limit: memory_limit_mb * 1024 * 1024,
        }
    }

    /// The compact forms of some entries; their paths go into the path table.
    pub fn compress_entries(&mut self, entries: &[FileEntry]) -> (r: Vec<CompressedFileEntry>)
        requires
            old(self).wf(),
        ensures
            final(self).wf(),
            final(self).paths() == add_paths(old(self).paths(), entries@),
            final(self).strings() == old(self).strings(),
            final(self).limit() == old(self).limit(),
            final(self).entries_in_use() == old(self).entries_in_use(),
            final(self).entries_idle() == old(self).entries_idle(),
            r@.len() == entries@.len(),
            forall|i: int|
                0 <= i < entries@.len() ==> compressed_from(#[trigger] r@[i], entries@[i])
                    && r@[i].path_index == position(add_paths(old(self).paths(), entries@.take(i)), entries@[i].path@),
    {
        let mut r: Vec<CompressedFileEntry> = Vec::new();
        let mut i: usize = 0;
        while i < entries.len()
            invariant
                i <= entries@.len(),
                self.wf(),
                self.paths() == add_paths(old(self).paths(), entries@.take(i as int)),
                self.strings() == old(self).strings(),
                self.limit() == old(self).limit(),
                self.entries_in_use() == old(self).entries_in_use(),
                self.entries_idle() == old(self).entries_idle(),
                r@.len() == i,
                forall|j: int|
                    0 <= j < i ==> compressed_from(#[trigger] r@[j], entries@[j]) && r@[j].path_index
                        == position(add_paths(old(self).paths(), entries@.take(j)), entries@[j].path@),
            decreases entries@.len() - i,
        {
            let c = CompressedFileEntry::from_entry(&entries[i], &mut self.path_table, &self.string_pool);
            assert(entries@.take(i + 1).drop_last() =~= entries@.take(i as int));
            r.push(c);
            i = i + 1;
        }
        assert(entries@.take(entries@.len() as int) =~= entries@);
        r
    }

    /// The entries that expand from compact ones, in order, with sizes shown
    /// by `format_size`; compact entries that do not expand are left out.
    pub fn decompress_entries<F: Fn(u64) -> String>(&self, compressed: &[CompressedFileEntry], format_size: F) -> (r:
        Vec<FileEntry>)
        requires
            forall|n: u64| format_size.requires((n,)),
        ensures
            r@.len() == compressed@.filter(|c: CompressedFileEntry| decodes(c, self.paths())).len(),
            forall|k: int|
                0 <= k < r@.len() ==> {
                    let c = compressed@.filter(|c: CompressedFileEntry| decodes(c, self.paths()))[k];
                    decoded_from(#[trigger] r@[k], c, self.paths()) && format_size.ensures(
                        (c.size,),
                        r@[k].size_display,
                    )
                },
    {
        let ghost pred = |c: CompressedFileEntry| decodes(c, self.paths());
        let mut r: Vec<FileEntry> = Vec::new();
        let mut i: usize = 0;
        proof {
            reveal(Seq::filter);
            assert(compressed@.take(0) =~= Seq::<CompressedFileEntry>::empty());
        }
        while i < compressed.len()
            invariant
                i <= compressed@.len(),
                forall|n: u64| format_size.requires((n,)),
                pred == (|c: CompressedFileEntry| decodes(c, self.paths())),
                r@.len() == compressed@.take(i as int).filter(pred).len(),
                forall|k: int|
                    0 <= k < r@.len() ==> {
                        let c = compressed@.take(i as int).filter(pred)[k];
                        decoded_from(#[trigger] r@[k], c, self.paths()) && format_size.ensures(
                            (c.size,),
                            r@[k].size_display,
                        )
                    },
            decreases compressed@.len() - i,
        {
            let ghost before = compressed@.take(i as int).filter(pred);
            assert(compressed@.take(i + 1).drop_last() =~= compressed@.take(i as int));
            assert(compressed@.take(i + 1).last() == compressed@[i as int]);
            proof {
                reveal(Seq::filter);
            }
            match compressed[i].to_entry(&self.path_table, &format_size) {
                Some(e) => {
                    assert(compressed@.take(i + 1).filter(pred) == before.push(compressed@[i as int]));
                    r.push(e);
                },
                None => {
                    assert(compressed@.take(i + 1).filter(pred) == before);
                },
            }
            i = i + 1;
        }
        assert(compressed@.take(compressed@.len() as int) =~= compressed@);
        r
    }

    /// The pools' and table's figures, with the estimated total held at
    /// `usize::MAX`.
    pub fn get_stats(&self) -> (r: MemoryStats)
        ensures
            r.string_pool_strings == self.strings().total(),
            r.string_pool_unique == self.strings().unique(),
            r.string_pool_saved == self.strings().saved(),
            r.path_table_entries == self.paths().len(),
            r.path_table_size == capped(total_bytes(self.paths())),
            r.entry_pool_available == self.entries_idle(),
            r.entry_pool_in_use == self.entries_in_use(),
            r.estimated_total == capped(
                estimate(
                    self.strings().unique(),
                    capped(total_bytes(self.paths())),
                    self.entries_in_use(),
                ),
            ),
    {
        let string_stats = self.string_pool.get_stats();
        let (path_count, path_size) = self.path_table.stats();
        let (pool_available, pool_in_use) = self.entry_pool.stats();
        let estimated_total = Self::estimate_memory_usage(&string_stats, path_size, pool_in_use);
        MemoryStats {
            string_pool_strings: string_stats.total_strings,
            string_pool_unique: string_stats.unique_strings,
            string_pool_saved: string_stats.memory_saved,
            path_table_entries: path_count,
            path_table_size: path_size,
            entry_pool_available: pool_available,
            entry_pool_in_use: pool_in_use,
            estimated_total,
        }
    }

    /// Whether the estimated total exceeds the limit.
    pub fn is_over_limit(&self) -> (r: bool)
        ensures
            r == (capped(
                estimate(
                    self.strings().unique(),
                    capped(total_bytes(self.paths())),
                    self.entries_in_use(),
                ),
            ) > self.limit()),
    {
        let stats = self.get_stats();
        stats.estimated_total > self.memory_limit
    }

    /// Empties the string pool; the path table keeps its paths.
    pub fn gc(&mut self)
        requires
            old(self).wf(),
        ensures
            final(self).wf(),
            final(self).strings().strings() == Seq::<Seq<char>>::empty(),
            final(self).strings().total() == 0,
            final(self).strings().unique() == 0,
            final(self).strings().saved() == 0,
            final(self).paths() == old(self).paths(),
            final(self).limit() == old(self).limit(),
            final(self).entries_in_use() == old(self).entries_in_use(),
            final(self).entries_idle() == old(self).entries_idle(),
    {
        self.string_pool.clear();
    }

    fn estimate_memory_usage(string_stats: &StringPoolStats, path_size: usize, entries_in_use: usize) -> (r:
        usize)
        ensures
            r == capped(
                estimate(string_stats.unique_strings as nat, path_size as nat, entries_in_use as nat),
            ),
    {
        let entry_size = std::mem::size_of::<FileEntry>();
        let string_memory = string_stats.unique_strings.checked_mul(50);
        let entry_memory = entries_in_use.checked_mul(entry_size);
        match (string_memory, entry_memory) {
            (Some(a), Some(b)) => match a.checked_add(path_size) {
                Some(c) => match c.checked_add(b) {
                    Some(d) => d,
                    None => usize::MAX,
                },
                None => usize::MAX,
            },
            _ => usize::MAX,
        }
    }
}

/// Number of batches of size `b` that `n` items make.
pub open spec fn batch_count(n: nat, b: nat) -> nat {
    if b == 0 {
        0
    } else {
        ((n + b - 1) / b as int) as nat
    }
}

/// Batch `k` of items split into batches of size `b` (the last may be
/// shorter).
pub open spec fn batch<T>(items: Seq<T>, b: nat, k: int) -> Seq<T> {
    let start = k * b;
    let end = if start + b <= items.len() { start + b } else { items.len() as int };
    items.subrange(start, end)
}

/// The concatenation of a sequence of sequences.
pub open spec fn flatten<R>(parts: Seq<Seq<R>>) -> Seq<R>
    decreases parts.len(),
{
    if parts.len() == 0 {
        Seq::empty()
    } else {
        flatten(parts.drop_last()) + parts.last()
    }
}

/// Whether `f` can give `out` for a slice holding `input`.
pub open spec fn made_by<T, R, F: Fn(&[T]) -> Vec<R>>(f: F, input: Seq<T>, out: Vec<R>) -> bool {
    exists|s: &[T]| s@ == input && #[trigger] f.ensures((s,), out)
}

/// Processes items a batch at a time.
pub struct BatchProcessor<T> {
    batch_size: usize,
    _phantom: std::marker::PhantomData<T>,
}

impl<T> BatchProcessor<T> {
    /// The batch size.
    pub closed spec fn size(&self) -> nat {
        self.batch_size as nat
    }

    /// A processor with the given batch size.
    pub fn new(batch_size: usize) -> (r: Self)
        ensures
            r.size() == batch_size,
    {
        BatchProcessor { batch_size, _phantom: std::marker::PhantomData }
    }

    /// Hands the items to `processor` one batch at a time, in order, and
    /// returns the results of all batches in order.
    pub fn process<F: Fn(&[T]) -> Vec<R>, R>(&self, items: Vec<T>, processor: F) -> (r: Vec<R>)
        requires
            self.size() > 0,
            forall|s: &[T]| processor.requires((s,)),
        ensures
            exists|outs: Seq<Vec<R>>|
                {
                    &&& outs.len() == batch_count(items@.len(), self.size())
                    &&& forall|k: int|
                        0 <= k < outs.len() ==> made_by(processor, batch(items@, self.size(), k), #[trigger] outs[k])
                    &&& r@ == flatten(outs.map_values(|v: Vec<R>| v@))
                },
    {
        let n = items.len();
        let b = self.batch_size;
        let mut results: Vec<R> = Vec::new();
        let ghost mut outs: Seq<Vec<R>> = Seq::empty();
        let mut start: usize = 0;
        while start < n
            invariant
                n == items@.len(),
                b == self.size(),
                b > 0,
                forall|s: &[T]| processor.requires((s,)),
                start <= n,
                start < n ==> start == outs.len() * b,
                start == n ==> outs.len() * b >= n && (outs.len() == 0 || (outs.len() - 1) * b < n),
                forall|j: int| 0 <= j < outs.len() ==> made_by(processor, batch(items@, b as nat, j), #[trigger] outs[j]),
                results@ == flatten(outs.map_values(|v: Vec<R>| v@)),
            decreases n - start,
        {
            let end = if n - start > b { start + b } else { n };
            let chunk = vstd::slice::slice_subrange(items.as_slice(), start, end);
            let out = processor(chunk);
            let ghost k = outs.len() as int;
            proof {
                assert(chunk@ == batch(items@, b as nat, k));
                assert(made_by(processor, batch(items@, b as nat, k), out));
                let ghost old_outs = outs;
                outs = outs.push(out);
                assert(outs.map_values(|v: Vec<R>| v@).drop_last() =~= old_outs.map_values(|v: Vec<R>| v@));
                assert((k + 1) * b == k * b + b) by (nonlinear_arith);
            }
            let mut out = out;
            results.append(&mut out);
            start = end;
        }
        let ghost k = outs.len() as int;
        assert(k == batch_count(n as nat, b as nat)) by (nonlinear_arith)
            requires
                b > 0,
                k >= 0,
                k * b >= n,
                k == 0 || (k - 1) * b < n,
        {
            if k > 0 {
                assert((k - 1) * b == k * b - b);
            }
        }
        results
    }
}

/// The position a path gets, in the table once it is added.
proof fn lemma_position_after_add(paths: Seq<Seq<char>>, p: Seq<char>)
    requires
        added(paths, p).len() <= u32::MAX,
    ensures
        (position(paths, p) as int) < added(paths, p).len(),
        added(paths, p)[position(paths, p) as int] == p,
{
    if paths.contains(p) {
        let i = choose|i: int| 0 <= i < paths.len() && paths[i] == p;
        assert(paths[paths.index_of(p)] == p);
    } else {
        assert(paths.push(p)[paths.len() as int] == p);
    }
}

/// Adding the paths of more entries keeps the paths already there.
proof fn lemma_add_paths_prefix(paths: Seq<Seq<char>>, es: Seq<FileEntry>, i: int, n: int)
    requires
        0 <= i <= n <= es.len(),
    ensures
        add_paths(paths, es.take(i)).len() <= add_paths(paths, es.take(n)).len(),
        forall|k: int|
            0 <= k < add_paths(paths, es.take(i)).len() ==> #[trigger] add_paths(paths, es.take(n))[k] == add_paths(
                paths,
                es.take(i),
            )[k],
    decreases n - i,
{
    if i < n {
        lemma_add_paths_prefix(paths, es, i, n - 1);
        assert(es.take(n).drop_last() =~= es.take(n - 1));
    }
}

/// Where every compact entry can be expanded, all of them are.
proof fn lemma_filter_all(cs: Seq<CompressedFileEntry>, paths: Seq<Seq<char>>)
    requires
        forall|i: int| 0 <= i < cs.len() ==> decodes(#[trigger] cs[i], paths),
    ensures
        cs.filter(|c: CompressedFileEntry| decodes(c, paths)) == cs,
    decreases cs.len(),
{
    reveal(Seq::filter);
    if cs.len() > 0 {
        lemma_filter_all(cs.drop_last(), paths);
        assert(cs.drop_last().push(cs.last()) =~= cs);
    }
}

/// Compressing entries with a manager and expanding what came out gives the
/// entries back: the same number, each with its name, path, kind, size and
/// time, hidden where its name starts with a dot, and not selected. This
/// holds for entries whose time, if any, lies after the epoch and within
/// what chrono can represent (a zero time reads back as none), while the
/// path table stays within 32-bit positions.
pub proof fn law_entries_round_trip(
    paths: Seq<Seq<char>>,
    es: Seq<FileEntry>,
    cs: Seq<CompressedFileEntry>,
    ds: Seq<FileEntry>,
)
    requires
        forall|i: int|
            0 <= i < es.len() ==> ((#[trigger] es[i]).modified matches Some(t) ==> t > 0
                && fs::utc_timestamp_in_range(t)),
        add_paths(paths, es).len() <= u32::MAX,
        cs.len() == es.len(),
        forall|i: int|
            0 <= i < es.len() ==> compressed_from(#[trigger] cs[i], es[i]) && cs[i].path_index == position(
                add_paths(paths, es.take(i)),
                es[i].path@,
            ),
        ds.len() == cs.filter(|c: CompressedFileEntry| decodes(c, add_paths(paths, es))).len(),
        forall|k: int|
            0 <= k < ds.len() ==> decoded_from(
                #[trigger] ds[k],
                cs.filter(|c: CompressedFileEntry| decodes(c, add_paths(paths, es)))[k],
                add_paths(paths, es),
            ),
    ensures
        ds.len() == es.len(),
        forall|i: int|
            0 <= i < es.len() ==> {
                &&& (#[trigger] ds[i]).name@ == es[i].name@
                &&& ds[i].path@ == es[i].path@
                &&& ds[i].file_type == es[i].file_type
                &&& ds[i].size == es[i].size
                &&& ds[i].modified == es[i].modified
                &&& ds[i].is_hidden == text::seq_starts_with(es[i].name@, seq!['.'])
                &&& !ds[i].is_selected
            },
{
    let all = add_paths(paths, es);
    assert(es.take(es.len() as int) =~= es);
    assert forall|i: int| 0 <= i < es.len() implies (#[trigger] cs[i].path_index as int) < all.len() && all[cs[i].path_index as int]
        == es[i].path@ by {
        let before = add_paths(paths, es.take(i));
        assert(es.take(i + 1).drop_last() =~= es.take(i));
        assert(es.take(i + 1).last() == es[i]);
        lemma_add_paths_prefix(paths, es, i + 1, es.len() as int);
        lemma_position_after_add(before, es[i].path@);
    }
    assert forall|i: int| 0 <= i < cs.len() implies decodes(#[trigger] cs[i], all) by {
        assert(cs[i].path_index as int == cs[i].path_index as int);
        match es[i].modified {
            Some(t) => {
                assert((t as u64) as i64 == t) by (bit_vector)
                    requires
                        t > 0i64,
                ;
            },
            None => {},
        }
    }
    lemma_filter_all(cs, all);
    assert forall|i: int| 0 <= i < es.len() implies {
        &&& (#[trigger] ds[i]).name@ == es[i].name@
        &&& ds[i].path@ == es[i].path@
        &&& ds[i].file_type == es[i].file_type
        &&& ds[i].size == es[i].size
        &&& ds[i].modified == es[i].modified
        &&& ds[i].is_hidden == text::seq_starts_with(es[i].name@, seq!['.'])
        &&& !ds[i].is_selected
    } by {
        assert(decoded_from(ds[i], cs[i], all));
        assert((cs[i].path_index as int) < all.len());
        law_compress_round_trip(es[i], cs[i], all, ds[i]);
        match es[i].modified {
            Some(t) => {
                assert(t as u64 != 0u64 && ((t as u64) as i64) == t) by (bit_vector)
                    requires
                        t > 0i64,
                ;
            },
            None => {},
        }
    }
}

} // verus!
