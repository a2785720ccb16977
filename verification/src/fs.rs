//! File entries as the panels show them, and the formatting of their fields.

use vstd::prelude::*;
use crate::text::{push_char, chars_of, starts_with_chars, to_lowercase};
use crate::text;
use crate::paths;

verus! {

/// The kind of a directory entry.
#[derive(Debug, Clone, Copy, PartialEq, Eq, Structural)]
pub enum FileType {
    File,
    Directory,
    Symlink,
    Other,
}

impl Default for FileType {
    fn default() -> (r: Self)
        ensures
            r == FileType::File,
    {
        FileType::File
    }
}

/// One entry of a directory listing.
#[derive(Debug)]
pub struct FileEntry {
    pub name: String,
    pub path: String,
    pub file_type: FileType,
    pub size: u64,
    pub size_display: String,
    /// Seconds since the Unix epoch.
    pub modified: Option<i64>,
    pub permissions: String,
    pub is_hidden: bool,
    pub extension: Option<String>,
    pub is_selected: bool,
}

/// A copy of an optional string.
pub fn clone_opt_string(s: &Option<String>) -> (r: Option<String>)
    ensures
        r == *s,
{
    match s {
        Some(x) => Some(x.clone()),
        None => None,
    }
}

impl Clone for FileEntry {
    fn clone(&self) -> (r: Self)
        ensures
            r == *self,
    {
        FileEntry {
            name: self.name.clone(),
            path: self.path.clone(),
            file_type: self.file_type,
            size: self.size,
            size_display: self.size_display.clone(),
            modified: self.modified,
            permissions: self.permissions.clone(),
            is_hidden: self.is_hidden,
            extension: clone_opt_string(&self.extension),
            is_selected: self.is_selected,
        }
    }
}

impl Default for FileEntry {
    fn default() -> (r: Self)
        ensures
            r.name@ == Seq::<char>::empty(),
            r.path@ == Seq::<char>::empty(),
            r.file_type == FileType::File,
            r.size == 0,
            r.size_display@ == Seq::<char>::empty(),
            r.modified is None,
            r.permissions@ == Seq::<char>::empty(),
            !r.is_hidden,
            r.extension is None,
            !r.is_selected,
    {
        FileEntry {
            name: String::new(),
            path: String::new(),
            file_type: FileType::File,
            size: 0,
            size_display: String::new(),
            modified: None,
            permissions: String::new(),
            is_hidden: false,
            extension: None,
            is_selected: false,
        }
    }
}

/// Text of a directory's size column.
pub open spec fn dir_marker() -> Seq<char> {
    seq!['<', 'D', 'I', 'R', '>']
}

/// The string `<DIR>`.
pub fn dir_marker_string() -> (r: String)
    ensures
        r@ == dir_marker(),
{
    let mut s = String::new();
    push_char(&mut s, '<');
    push_char(&mut s, 'D');
    push_char(&mut s, 'I');
    push_char(&mut s, 'R');
    push_char(&mut s, '>');
    assert(s@ =~= dir_marker());
    s
}

impl FileEntry {
    /// The `..` entry that leads to the parent directory.
    pub fn parent() -> (r: FileEntry)
        ensures
            r.name@ == seq!['.', '.'],
            r.path@ == seq!['.', '.'],
            r.file_type == FileType::Directory,
            r.size == 0,
            r.size_display@ == dir_marker(),
            r.modified is None,
            r.permissions@ == Seq::<char>::empty(),
            !r.is_hidden,
            r.extension is None,
            !r.is_selected,
    {
        let mut name = String::new();
        push_char(&mut name, '.');
        push_char(&mut name, '.');
        let path = name.clone();
        assert(name@ =~= seq!['.', '.']);
        FileEntry {
            name,
            path,
            file_type: FileType::Directory,
            size: 0,
            size_display: dir_marker_string(),
            modified: None,
            permissions: String::new(),
            is_hidden: false,
            extension: None,
            is_selected: false,
        }
    }
}

/// `r`, `w`, `x` or `-` for the three bits of one permission group.
pub open spec fn permission_group(perms: u32) -> Seq<char> {
    seq![
        if perms & 4 != 0 { 'r' } else { '-' },
        if perms & 2 != 0 { 'w' } else { '-' },
        if perms & 1 != 0 { 'x' } else { '-' },
    ]
}

/// The three groups (owner, group, others) of a Unix mode.
pub open spec fn mode_permissions(mode: u32) -> Seq<char> {
    permission_group((mode >> 6) & 7) + permission_group((mode >> 3) & 7) + permission_group(
        mode & 7,
    )
}

/// Formats one permission group as `rwx`, with `-` for a missing right.
pub fn format_permission_group(perms: u32) -> (r: String)
    ensures
        r@ == permission_group(perms),
{
    let mut s = String::new();
    push_char(&mut s, if perms & 4 != 0 { 'r' } else { '-' });
    push_char(&mut s, if perms & 2 != 0 { 'w' } else { '-' });
    push_char(&mut s, if perms & 1 != 0 { 'x' } else { '-' });
    assert(s@ =~= permission_group(perms));
    s
}

/// Formats the permission bits of a Unix mode as nine characters.
pub fn format_permissions(mode: u32) -> (r: String)
    ensures
        r@ == mode_permissions(mode),
{
    let a = format_permission_group((mode >> 6) & 7);
    let b = format_permission_group((mode >> 3) & 7);
    let c = format_permission_group(mode & 7);
    let mut s = a;
    s.append(b.as_str());
    s.append(c.as_str());
    s
}

/// The text that `humansize::format_size` gives for a byte count in binary units.
pub uninterp spec fn humansize_binary(n: u64) -> Seq<char>;

/// Calls `humansize::format_size` with the binary (KiB, MiB, ...) options.
#[verifier::external_body]
pub(crate) fn binary_size_text(n: u64) -> (r: String)
    ensures
        r@ == humansize_binary(n),
{
    humansize::format_size(n, humansize::BINARY)
}

/// The first Unix second `chrono` represents: -262143-01-01T00:00:00Z.
pub const UTC_MIN_SECS: i64 = -8_334_601_228_800;

/// The last Unix second `chrono` represents: +262142-12-31T23:59:59Z.
pub const UTC_MAX_SECS: i64 = 8_210_266_876_799;

/// Whether `chrono` can represent the given Unix second as a UTC date-time:
/// its dates run from the year -262143 to the year 262142.
pub open spec fn utc_timestamp_in_range(secs: i64) -> bool {
    UTC_MIN_SECS <= secs <= UTC_MAX_SECS
}

/// Calls `chrono::DateTime::from_timestamp` and reads the timestamp back
/// (which chrono documents to round-trip).
#[verifier::external_body]
pub(crate) fn utc_timestamp(secs: i64) -> (r: Option<i64>)
    ensures
        r == (if utc_timestamp_in_range(secs) { Some(secs) } else { None }),
{
    chrono::DateTime::from_timestamp(secs, 0).map(|d| d.timestamp())
}

/// The text `{:?}` gives for the UTC date-time of a Unix second.
pub uninterp spec fn utc_debug_text(secs: i64) -> Seq<char>;

/// Calls `chrono::DateTime::from_timestamp` and formats the date-time with
/// `{:?}`; nothing where chrono cannot represent the second.
#[verifier::external_body]
pub(crate) fn utc_debug(secs: i64) -> (r: Option<String>)
    ensures
        r is Some == utc_timestamp_in_range(secs),
        r matches Some(t) ==> t@ == utc_debug_text(secs),
{
    match chrono::DateTime::from_timestamp(secs, 0) {
        Some(d) => Some(format!("{:?}", d)),
        None => None,
    }
}

/// The kind of an entry from what its metadata reports.
pub open spec fn kind_of(is_dir: bool, is_file: bool, is_symlink: bool) -> FileType {
    if is_dir {
        FileType::Directory
    } else if is_file {
        FileType::File
    } else if is_symlink {
        FileType::Symlink
    } else {
        FileType::Other
    }
}

/// What the metadata of a path reports, as plain values.
pub struct Metadata {
    pub is_dir: bool,
    pub is_file: bool,
    pub is_symlink: bool,
    pub len: u64,
    /// Seconds since the Unix epoch of the last modification, when known.
    pub modified_secs: Option<u64>,
    /// Unix mode bits.
    pub mode: u32,
}

/// The entry's name: the last component of its path, or empty.
pub open spec fn entry_name(path: Seq<char>) -> Seq<char> {
    match paths::path_file_name(path) {
        Some(n) => n,
        None => Seq::empty(),
    }
}

impl FileEntry {
    /// Builds the entry for `path` from its metadata.
    pub fn from_metadata(path: &str, md: &Metadata) -> (r: FileEntry)
        ensures
            r.name@ == entry_name(path@),
            r.path@ == path@,
            r.file_type == kind_of(md.is_dir, md.is_file, md.is_symlink),
            r.size == md.len,
            r.size_display@ == (if r.file_type == FileType::Directory {
                dir_marker()
            } else {
                humansize_binary(md.len)
            }),
            r.modified == (match md.modified_secs {
                Some(s) => if utc_timestamp_in_range(s as i64) {
                    Some(s as i64)
                } else {
                    None
                },
                None => None,
            }),
            r.permissions@ == mode_permissions(md.mode),
            r.is_hidden == text::seq_starts_with(r.name@, seq!['.']),
            r.extension is Some ==> r.extension.unwrap()@ == text::lowercase(
                paths::path_extension(path@).unwrap(),
            ),
            r.extension is Some <==> (r.file_type == FileType::File && paths::path_extension(
                path@,
            ) is Some),
            !r.is_selected,
    {
        let name = match paths::file_name(path) {
            Some(n) => n,
            None => String::new(),
        };
        let file_type = if md.is_dir {
            FileType::Directory
        } else if md.is_file {
            FileType::File
        } else if md.is_symlink {
            FileType::Symlink
        } else {
            FileType::Other
        };
        let size_display = if md.is_dir {
            dir_marker_string()
        } else {
            binary_size_text(md.len)
        };
        let modified = match md.modified_secs {
            Some(s) => utc_timestamp(s as i64),
            None => None,
        };
        let name_chars = chars_of(name.as_str());
        let dot: [char; 1] = ['.'];
        let is_hidden = starts_with_chars(name_chars.as_slice(), dot.as_slice());
        assert(dot@ =~= seq!['.']);
        let extension = if md.is_dir || !md.is_file {
            None
        } else {
            match paths::extension(path) {
                Some(e) => Some(to_lowercase(e.as_str())),
                None => None,
            }
        };
        FileEntry {
            name,
            path: path.to_owned(),
            file_type,
            size: md.len,
            size_display,
            modified,
            permissions: format_permissions(md.mode),
            is_hidden,
            extension,
            is_selected: false,
        }
    }
}

/// How a directory listing orders two entries: directories before files,
/// otherwise by name ignoring case.
pub open spec fn listing_order(a: FileEntry, b: FileEntry) -> crate::state::Order {
    if a.file_type == FileType::Directory && b.file_type == FileType::File {
        crate::state::Order::Less
    } else if a.file_type == FileType::File && b.file_type == FileType::Directory {
        crate::state::Order::Greater
    } else {
        crate::state::lex_order(text::lowercase(a.name@), text::lowercase(b.name@))
    }
}

/// Entries are in listing order.
pub open spec fn listed_in_order(s: Seq<FileEntry>) -> bool {
    forall|i: int| 0 <= i < s.len() - 1 ==> listing_order(s[i], #[trigger] s[i + 1]) != crate::state::Order::Greater
}

proof fn lemma_listing_order_antisym(a: FileEntry, b: FileEntry)
    ensures
        listing_order(a, b) == crate::state::Order::Greater ==> listing_order(b, a) == crate::state::Order::Less,
{
    crate::state::lemma_lex_antisym(text::lowercase(b.name@), text::lowercase(a.name@));
}

proof fn lemma_listed_at(s: Seq<FileEntry>, i: int)
    requires
        listed_in_order(s),
        0 <= i < s.len() - 1,
    ensures
        listing_order(s[i], s[i + 1]) != crate::state::Order::Greater,
{
    assert(s[i + 1] == s[i + 1]);
}

fn compare_listing(a: &FileEntry, b: &FileEntry) -> (r: crate::state::Order)
    ensures
        r == listing_order(*a, *b),
{
    if a.file_type == FileType::Directory && b.file_type == FileType::File {
        return crate::state::Order::Less;
    }
    if a.file_type == FileType::File && b.file_type == FileType::Directory {
        return crate::state::Order::Greater;
    }
    let la = chars_of(to_lowercase(a.name.as_str()).as_str());
    let lb = chars_of(to_lowercase(b.name.as_str()).as_str());
    crate::state::lex_compare(la.as_slice(), lb.as_slice())
}

/// The entries not hidden (all where hidden ones are shown), in order.
pub open spec fn shown_entries(es: Seq<FileEntry>, show_hidden: bool) -> Seq<FileEntry> {
    es.filter(|e: FileEntry| show_hidden || !e.is_hidden)
}

/// Whether an entry is the `..` entry that leads to the parent directory.
pub open spec fn is_parent_entry(e: FileEntry) -> bool {
    &&& e.name@ == seq!['.', '.']
    &&& e.path@ == seq!['.', '.']
    &&& e.file_type == FileType::Directory
    &&& e.size == 0
    &&& e.size_display@ == dir_marker()
    &&& e.modified is None
    &&& e.permissions@ == Seq::<char>::empty()
    &&& !e.is_hidden
    &&& e.extension is None
    &&& !e.is_selected
}

/// Directory listings.
pub struct FileSystem;

/// A prefix totals no more than the whole.
proof fn lemma_known_total_prefix(sizes: Seq<Option<u64>>, n: int)
    requires
        0 <= n <= sizes.len(),
    ensures
        known_total(sizes.subrange(0, n)) <= known_total(sizes),
    decreases sizes.len() - n,
{
    if n < sizes.len() {
        lemma_known_total_prefix(sizes, n + 1);
        assert(sizes.subrange(0, n + 1).drop_last() =~= sizes.subrange(0, n));
    } else {
        assert(sizes.subrange(0, n) =~= sizes);
    }
}

/// The total of the sizes that are known.
pub open spec fn known_total(sizes: Seq<Option<u64>>) -> nat
    decreases sizes.len(),
{
    if sizes.len() == 0 {
        0
    } else {
        known_total(sizes.drop_last()) + match sizes.last() {
            Some(n) => n as nat,
            None => 0,
        }
    }
}

impl FileSystem {
    /// The number of entries of a directory and their total size, from the
    /// size of each entry (unknown where its metadata could not be read).
    pub fn get_directory_info(sizes: &Vec<Option<u64>>) -> (r: (usize, u64))
        requires
            known_total(sizes@) <= u64::MAX,
        ensures
            r.0 == sizes@.len(),
            r.1 == known_total(sizes@),
    {
        let mut count: usize = 0;
        let mut total: u64 = 0;
        while count < sizes.len()
            invariant
                count <= sizes@.len(),
                total == known_total(sizes@.subrange(0, count as int)),
                known_total(sizes@) <= u64::MAX,
            decreases sizes@.len() - count,
        {
            proof {
                assert(sizes@.subrange(0, count + 1).drop_last() =~= sizes@.subrange(0, count as int));
                lemma_known_total_prefix(sizes@, count + 1);
            }
            match sizes[count] {
                Some(n) => {
                    total = total + n;
                },
                None => {},
            }
            count = count + 1;
        }
        assert(sizes@.subrange(0, count as int) =~= sizes@);
        (count, total)
    }

    /// A directory listing from the entries read: the `..` entry first where
    /// the directory has a parent, hidden entries left out unless shown, then
    /// everything ordered with directories before files and by name ignoring
    /// case (keeping the read order of entries that compare alike).
    pub fn arrange_listing(has_parent: bool, read: Vec<FileEntry>, show_hidden: bool) -> (r: Vec<FileEntry>)
        ensures
            exists|p: FileEntry|
                is_parent_entry(p) && r@ == listing_sorted(
                    if has_parent {
                        seq![p]
                    } else {
                        Seq::empty()
                    } + shown_entries(read@, show_hidden),
                ) && r@.to_multiset() == (if has_parent {
                    seq![p]
                } else {
                    Seq::empty()
                } + shown_entries(read@, show_hidden)).to_multiset(),
            listed_in_order(r@),
    {
        let mut all: Vec<FileEntry> = Vec::new();
        let parent = FileEntry::parent();
        let ghost pw = parent;
        if has_parent {
            all.push(parent);
        }
        let ghost head = all@;
        let ghost pred = |e: FileEntry| show_hidden || !e.is_hidden;
        let mut i: usize = 0;
        proof {
            reveal(Seq::filter);
            assert(read@.take(0) =~= Seq::<FileEntry>::empty());
            assert(all@ =~= head + read@.take(0).filter(pred));
        }
        while i < read.len()
            invariant
                i <= read@.len(),
                pred == (|e: FileEntry| show_hidden || !e.is_hidden),
                all@ == head + read@.take(i as int).filter(pred),
            decreases read@.len() - i,
        {
            let ghost before = all@;
            assert(read@.take(i + 1).drop_last() =~= read@.take(i as int));
            assert(read@.take(i + 1).last() == read@[i as int]);
            proof {
                reveal(Seq::filter);
            }
            if show_hidden || !read[i].is_hidden {
                all.push(read[i].clone());
                assert(all@ =~= head + read@.take(i + 1).filter(pred));
            } else {
                assert(all@ =~= head + read@.take(i + 1).filter(pred));
            }
            i = i + 1;
        }
        assert(read@.take(read@.len() as int) =~= read@);
        let r = sort_listing(all);
        proof {
            assert(is_parent_entry(pw));
            if has_parent {
                assert(head =~= seq![pw]);
            } else {
                assert(head =~= Seq::<FileEntry>::empty());
            }
        }
        r
    }
}

/// Where an entry goes among entries in listing order: before the first
/// that comes after it, so after those that compare alike.
pub open spec fn listing_insertion_point(s: Seq<FileEntry>, x: FileEntry) -> int
    decreases s.len(),
{
    if s.len() == 0 {
        0
    } else if listing_order(s[0], x) == crate::state::Order::Greater {
        0
    } else {
        1 + listing_insertion_point(s.drop_first(), x)
    }
}

/// The entries in listing order, those that compare alike kept in the order
/// given (a stable sort).
pub open spec fn listing_sorted(v: Seq<FileEntry>) -> Seq<FileEntry>
    decreases v.len(),
{
    if v.len() == 0 {
        v
    } else {
        let s = listing_sorted(v.drop_last());
        s.insert(listing_insertion_point(s, v.last()), v.last())
    }
}

proof fn lemma_listing_insertion_point(s: Seq<FileEntry>, x: FileEntry, j: int)
    requires
        0 <= j <= s.len(),
        forall|t: int| 0 <= t < j ==> listing_order(#[trigger] s[t], x) != crate::state::Order::Greater,
        j < s.len() ==> listing_order(s[j], x) == crate::state::Order::Greater,
    ensures
        listing_insertion_point(s, x) == j,
    decreases j,
{
    if j > 0 {
        let d = s.drop_first();
        assert forall|t: int| 0 <= t < j - 1 implies listing_order(#[trigger] d[t], x) != crate::state::Order::Greater by {
            assert(d[t] == s[t + 1]);
        }
        if j < s.len() {
            assert(d[j - 1] == s[j]);
        }
        assert(listing_order(s[0], x) != crate::state::Order::Greater);
        lemma_listing_insertion_point(d, x, j - 1);
    }
}

fn sort_listing(v: Vec<FileEntry>) -> (r: Vec<FileEntry>)
    ensures
        r@.to_multiset() == v@.to_multiset(),
        listed_in_order(r@),
        r@ == listing_sorted(v@),
{
    let mut r: Vec<FileEntry> = Vec::new();
    let mut k: usize = 0;
    assert(v@.take(0) =~= Seq::<FileEntry>::empty());
    assert(r@ =~= Seq::<FileEntry>::empty());
    while k < v.len()
        invariant
            k <= v@.len(),
            r@.to_multiset() == v@.take(k as int).to_multiset(),
            listed_in_order(r@),
            r@ == listing_sorted(v@.take(k as int)),
        decreases v@.len() - k,
    {
        let x = v[k].clone();
        let mut j: usize = 0;
        loop
            invariant_except_break
                j <= r@.len(),
                forall|t: int| 0 <= t < j ==> listing_order(#[trigger] r@[t], x) != crate::state::Order::Greater,
            ensures
                j <= r@.len(),
                j < r@.len() ==> listing_order(r@[j as int], x) == crate::state::Order::Greater,
                forall|t: int| 0 <= t < j ==> listing_order(#[trigger] r@[t], x) != crate::state::Order::Greater,
            decreases r@.len() - j,
        {
            if j >= r.len() {
                break;
            }
            if compare_listing(&r[j], &x) == crate::state::Order::Greater {
                break;
            }
            j = j + 1;
        }
        let ghost old_r = r@;
        let ghost item = x;
        r.insert(j, x);
        proof {
            lemma_listing_insertion_point(old_r, item, j as int);
            assert(v@.take(k + 1).drop_last() =~= v@.take(k as int));
            assert(v@.take(k + 1).last() == item);
            vstd::seq_lib::to_multiset_insert(old_r, j as int, item);
            assert(v@.take(k + 1) =~= v@.take(k as int).push(item));
            vstd::seq_lib::to_multiset_build(v@.take(k as int), item);
            if j < old_r.len() {
                lemma_listing_order_antisym(old_r[j as int], item);
            }
        }
        let ghost nr = r@;
        assert forall|i: int| 0 <= i < nr.len() - 1 implies listing_order(nr[i], #[trigger] nr[i + 1])
            != crate::state::Order::Greater by {
            if i + 1 < j {
                assert(nr[i] == old_r[i] && nr[i + 1] == old_r[i + 1]);
            } else if i + 1 == j {
                assert(nr[i] == old_r[i]);
                assert(nr[i + 1] == item);
            } else if i == j {
                assert(nr[i + 1] == old_r[i]);
                assert(nr[i] == item);
            } else {
                assert(nr[i] == old_r[i - 1] && nr[i + 1] == old_r[i]);
                lemma_listed_at(old_r, i - 1);
            }
        }
        k = k + 1;
    }
    assert(v@.take(v@.len() as int) =~= v@);
    r
}

} // verus!
