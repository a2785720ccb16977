//! Panel and application state: directory listings, selection, marks,
//! filtering and sorting of a panel, and the two panels of the application.

use vstd::prelude::*;
use crate::fs::{FileEntry, FileType};
use crate::vfs::{VfsEntry, VfsPath, VfsPathView, VfsError, VirtualFileSystem, RemoteCredentials};
use crate::cache::{CacheConfig, DirectoryCache};
use crate::config::ConfigManager;
use crate::paths;
use std::collections::VecDeque;
use crate::git::GitInfo;
use crate::text;
use crate::theme::{ThemeManager, ThemeMode};

verus! {

/// How a panel orders its entries.
#[derive(Debug, Clone, Copy, PartialEq, Eq, Structural)]
pub enum SortMode {
    Name,
    Size,
    Modified,
    Extension,
}

/// The state of one file panel.
#[derive(Debug)]
pub struct PanelState {
    pub current_dir: String,
    pub current_vfs_path: Option<VfsPath>,
    pub entries: Vec<FileEntry>,
    pub vfs_entries: Vec<VfsEntry>,
    pub filtered_entries: Vec<FileEntry>,
    pub filtered_vfs_entries: Vec<VfsEntry>,
    pub selected_index: usize,
    pub view_offset: usize,
    pub show_hidden: bool,
    pub sort_mode: SortMode,
    pub marked_files: Vec<String>,
    pub filter: Option<String>,
    pub git_info: Option<GitInfo>,
}

impl PanelState {
    /// The entries the panel shows: the filtered ones while a filter is set.
    pub open spec fn visible(&self) -> Seq<FileEntry> {
        if self.filter is Some {
            self.filtered_entries@
        } else {
            self.entries@
        }
    }

    /// The virtual entries the panel shows.
    pub open spec fn visible_vfs(&self) -> Seq<VfsEntry> {
        if self.filter is Some {
            self.filtered_vfs_entries@
        } else {
            self.vfs_entries@
        }
    }

    /// The marked paths as character sequences.
    pub open spec fn marks(&self) -> Seq<Seq<char>> {
        self.marked_files@.map_values(|p: String| p@)
    }

    /// A panel showing `path`, with the Git status of that directory.
    pub fn new(path: String, git_info: Option<GitInfo>) -> (r: Self)
        ensures
            r.current_dir == path,
            r.current_vfs_path is None,
            r.entries@.len() == 0,
            r.vfs_entries@.len() == 0,
            r.filtered_entries@.len() == 0,
            r.filtered_vfs_entries@.len() == 0,
            r.selected_index == 0,
            r.view_offset == 0,
            !r.show_hidden,
            r.sort_mode == SortMode::Name,
            r.marked_files@.len() == 0,
            r.filter is None,
            r.git_info == git_info,
    {
        PanelState {
            current_dir: path,
            current_vfs_path: None,
            entries: Vec::new(),
            vfs_entries: Vec::new(),
            filtered_entries: Vec::new(),
            filtered_vfs_entries: Vec::new(),
            selected_index: 0,
            view_offset: 0,
            show_hidden: false,
            sort_mode: SortMode::Name,
            marked_files: Vec::new(),
            filter: None,
            git_info,
        }
    }

    /// The number of visible entries.
    pub fn visible_len(&self) -> (n: usize)
        ensures
            n == self.visible().len(),
    {
        if self.filter.is_some() {
            self.filtered_entries.len()
        } else {
            self.entries.len()
        }
    }

    /// The entry under the cursor.
    pub fn current_entry(&self) -> (r: Option<&FileEntry>)
        ensures
            r matches Some(e) ==> self.selected_index < self.visible().len() && *e
                == self.visible()[self.selected_index as int],
            r is None ==> self.selected_index >= self.visible().len(),
    {
        if self.filter.is_some() {
            if self.selected_index < self.filtered_entries.len() {
                Some(&self.filtered_entries[self.selected_index])
            } else {
                None
            }
        } else {
            if self.selected_index < self.entries.len() {
                Some(&self.entries[self.selected_index])
            } else {
                None
            }
        }
    }

    /// The virtual entry under the cursor.
    pub fn current_vfs_entry(&self) -> (r: Option<&VfsEntry>)
        ensures
            r matches Some(e) ==> self.selected_index < self.visible_vfs().len() && *e
                == self.visible_vfs()[self.selected_index as int],
            r is None ==> self.selected_index >= self.visible_vfs().len(),
    {
        if self.filter.is_some() {
            if self.selected_index < self.filtered_vfs_entries.len() {
                Some(&self.filtered_vfs_entries[self.selected_index])
            } else {
                None
            }
        } else {
            if self.selected_index < self.vfs_entries.len() {
                Some(&self.vfs_entries[self.selected_index])
            } else {
                None
            }
        }
    }

    /// Whether the panel shows a virtual location.
    pub fn is_using_vfs(&self) -> (r: bool)
        ensures
            r == self.current_vfs_path is Some,
    {
        self.current_vfs_path.is_some()
    }

    /// Moves the cursor one entry up (it stays on the first entry).
    pub fn move_selection_up(&mut self)
        ensures
            final(self).selected_index == (if old(self).selected_index > 0 {
                old(self).selected_index - 1
            } else {
                0
            }),
            *final(self) == (PanelState { selected_index: final(self).selected_index, ..*old(self) }),
    {
        if self.selected_index > 0 {
            self.selected_index = self.selected_index - 1;
        }
    }

    /// Moves the cursor one entry down (it stays on the last entry).
    pub fn move_selection_down(&mut self)
        ensures
            final(self).selected_index == (if old(self).selected_index + 1 < old(self).visible().len() {
                old(self).selected_index + 1
            } else {
                old(self).selected_index as int
            }),
            *final(self) == (PanelState { selected_index: final(self).selected_index, ..*old(self) }),
    {
        let len = self.visible_len();
        let last = if len > 0 {
            len - 1
        } else {
            0
        };
        if self.selected_index < last {
            self.selected_index = self.selected_index + 1;
        }
    }

    /// Moves the cursor a page up (it stops at the first entry).
    pub fn move_selection_page_up(&mut self, page_size: usize)
        ensures
            final(self).selected_index == (if old(self).selected_index >= page_size {
                old(self).selected_index - page_size
            } else {
                0
            }),
            *final(self) == (PanelState { selected_index: final(self).selected_index, ..*old(self) }),
    {
        self.selected_index = if self.selected_index >= page_size {
            self.selected_index - page_size
        } else {
            0
        };
    }

    /// Moves the cursor a page down (it stops at the last entry).
    pub fn move_selection_page_down(&mut self, page_size: usize)
        requires
            old(self).selected_index + page_size <= usize::MAX,
        ensures
            final(self).selected_index == min(
                old(self).selected_index + page_size,
                if old(self).visible().len() > 0 { old(self).visible().len() - 1 } else { 0 },
            ),
            *final(self) == (PanelState { selected_index: final(self).selected_index, ..*old(self) }),
    {
        let len = self.visible_len();
        let max_index = if len > 0 {
            len - 1
        } else {
            0
        };
        let target = self.selected_index + page_size;
        self.selected_index = if target < max_index {
            target
        } else {
            max_index
        };
    }

    /// Moves the cursor to the first entry.
    pub fn move_selection_home(&mut self)
        ensures
            *final(self) == (PanelState { selected_index: 0, ..*old(self) }),
    {
        self.selected_index = 0;
    }

    /// Moves the cursor to the last entry.
    pub fn move_selection_end(&mut self)
        ensures
            final(self).selected_index == (if old(self).visible().len() > 0 {
                old(self).visible().len() - 1
            } else {
                0
            }),
            *final(self) == (PanelState { selected_index: final(self).selected_index, ..*old(self) }),
    {
        let len = self.visible_len();
        self.selected_index = if len > 0 {
            len - 1
        } else {
            0
        };
    }

    /// Whether `path` is marked.
    pub fn is_marked(&self, path: &str) -> (r: bool)
        ensures
            r == self.marks().contains(path@),
    {
        let mut i: usize = 0;
        while i < self.marked_files.len()
            invariant
                i <= self.marked_files@.len(),
                forall|j: int| 0 <= j < i ==> self.marked_files@[j]@ != path@,
            decreases self.marked_files@.len() - i,
        {
            if text::str_eq(self.marked_files[i].as_str(), path) {
                assert(self.marks()[i as int] == path@);
                return true;
            }
            i = i + 1;
        }
        assert(!self.marks().contains(path@)) by {
            if self.marks().contains(path@) {
                let j = choose|j: int| 0 <= j < self.marks().len() && self.marks()[j] == path@;
                assert(self.marked_files@[j]@ == path@);
            }
        }
        false
    }


    /// Marks the entry under the cursor, or unmarks it when it is marked.
    pub fn toggle_mark_current(&mut self)
        ensures
            match old(self).current_entry_spec() {
                Some(e) => final(self).marks() == toggle_marks(old(self).marks(), e.path@),
                None => final(self).marks() == old(self).marks(),
            },
            *final(self) == (PanelState { marked_files: final(self).marked_files, ..*old(self) }),
    {
        let path = match self.current_entry() {
            Some(e) => e.path.clone(),
            None => {
                return;
            },
        };
        let ghost m0 = self.marks();
        let mut i: usize = 0;
        while i < self.marked_files.len()
            invariant
                self.marked_files@ == old(self).marked_files@,
                *self == *old(self),
                m0 == self.marks(),
                old(self).current_entry_spec() matches Some(e) && e.path@ == path@,
                i <= self.marked_files@.len(),
                forall|j: int| 0 <= j < i ==> m0[j] != path@,
            decreases self.marked_files@.len() - i,
        {
            if text::str_eq(self.marked_files[i].as_str(), path.as_str()) {
                proof {
                    assert(m0[i as int] == path@);
                    crate::cache::lemma_first_index(m0, path@, i as int);
                }
                self.marked_files.remove(i);
                assert(self.marks() =~= m0.remove(i as int));
                assert(m0.contains(path@));
                return;
            }
            i = i + 1;
        }
        proof {
            crate::cache::lemma_remove_first_absent(m0, path@);
            assert(!m0.contains(path@));
        }
        self.marked_files.push(path);
        assert(self.marks() =~= m0.push(path@));
    }

    /// The entry under the cursor, in specifications.
    pub open spec fn current_entry_spec(&self) -> Option<FileEntry> {
        if self.selected_index < self.visible().len() {
            Some(self.visible()[self.selected_index as int])
        } else {
            None
        }
    }

    /// Scrolls so that the cursor keeps three entries of context.
    pub fn update_view_offset(&mut self, window_height: usize)
        requires
            old(self).view_offset + 3 <= usize::MAX,
            old(self).selected_index + 4 <= usize::MAX,
            old(self).selected_index >= old(self).view_offset + 3 ==> old(self).view_offset
                + window_height <= usize::MAX && old(self).view_offset + window_height >= 3,
        ensures
            final(self).view_offset == view_offset_after(
                old(self).selected_index as int,
                old(self).view_offset as int,
                window_height as int,
            ),
            *final(self) == (PanelState { view_offset: final(self).view_offset, ..*old(self) }),
    {
        let padding: usize = 3;
        if self.selected_index < self.view_offset + padding {
            self.view_offset = if self.selected_index >= padding {
                self.selected_index - padding
            } else {
                0
            };
        } else if self.selected_index >= self.view_offset + window_height - padding {
            self.view_offset = self.selected_index + padding - window_height + 1;
        }
    }

    /// Shows only the entries whose name contains `filter`, ignoring case; an
    /// empty filter shows every entry.  The cursor is kept within the shown
    /// entries and the view scrolls to the top.
    pub fn apply_filter(&mut self, filter: &str)
        ensures
            filter@.len() == 0 ==> final(self).filter is None && final(self).filtered_entries@.len()
                == 0 && final(self).filtered_vfs_entries@.len() == 0,
            filter@.len() > 0 ==> (final(self).filter matches Some(f) && f@ == filter@)
                && final(self).filtered_entries@ == entries_matching(
                old(self).entries@,
                text::lowercase(filter@),
            ) && final(self).filtered_vfs_entries@ == vfs_entries_matching(
                old(self).vfs_entries@,
                text::lowercase(filter@),
            ),
            final(self).selected_index == clamp_selection(
                old(self).selected_index as int,
                final(self).shown_len(),
            ),
            final(self).view_offset == 0,
            final(self).entries == old(self).entries,
            final(self).vfs_entries == old(self).vfs_entries,
            final(self).current_dir == old(self).current_dir,
            final(self).current_vfs_path == old(self).current_vfs_path,
            final(self).show_hidden == old(self).show_hidden,
            final(self).sort_mode == old(self).sort_mode,
            final(self).marked_files == old(self).marked_files,
            final(self).git_info == old(self).git_info,
    {
        if filter.unicode_len() == 0 {
            self.filter = None;
            self.filtered_entries.clear();
            self.filtered_vfs_entries.clear();
        } else {
            self.filter = Some(filter.to_owned());
            let q = text::to_lowercase(filter);
            let qc = text::chars_of(q.as_str());
            let mut fe: Vec<FileEntry> = Vec::new();
            let mut i: usize = 0;
            while i < self.entries.len()
                invariant
                    i <= self.entries@.len(),
                    qc@ == text::lowercase(filter@),
                    fe@ == entries_matching(self.entries@.subrange(0, i as int), qc@),
                decreases self.entries@.len() - i,
            {
                assert(self.entries@.subrange(0, i + 1).drop_last() =~= self.entries@.subrange(0, i as int));
                let name = text::to_lowercase(self.entries[i].name.as_str());
                let nc = text::chars_of(name.as_str());
                if text::contains_chars(nc.as_slice(), qc.as_slice()) {
                    fe.push(self.entries[i].clone());
                }
                i = i + 1;
            }
            assert(self.entries@.subrange(0, i as int) =~= self.entries@);
            let mut fv: Vec<VfsEntry> = Vec::new();
            let mut i: usize = 0;
            while i < self.vfs_entries.len()
                invariant
                    i <= self.vfs_entries@.len(),
                    qc@ == text::lowercase(filter@),
                    fv@ == vfs_entries_matching(self.vfs_entries@.subrange(0, i as int), qc@),
                decreases self.vfs_entries@.len() - i,
            {
                assert(self.vfs_entries@.subrange(0, i + 1).drop_last() =~= self.vfs_entries@.subrange(0, i as int));
                let name = text::to_lowercase(self.vfs_entries[i].name.as_str());
                let nc = text::chars_of(name.as_str());
                if text::contains_chars(nc.as_slice(), qc.as_slice()) {
                    fv.push(self.vfs_entries[i].clone());
                }
                i = i + 1;
            }
            assert(self.vfs_entries@.subrange(0, i as int) =~= self.vfs_entries@);
            self.filtered_entries = fe;
            self.filtered_vfs_entries = fv;
        }
        let len = if self.filter.is_some() {
            if self.current_vfs_path.is_some() {
                self.filtered_vfs_entries.len()
            } else {
                self.filtered_entries.len()
            }
        } else if self.current_vfs_path.is_some() {
            self.vfs_entries.len()
        } else {
            self.entries.len()
        };
        if self.selected_index >= len && len > 0 {
            self.selected_index = len - 1;
        } else if len == 0 {
            self.selected_index = 0;
        }
        self.view_offset = 0;
    }

    /// The number of entries the selection is held within: virtual or plain,
    /// filtered or not.
    pub open spec fn shown_len(&self) -> int {
        if self.filter is Some {
            if self.current_vfs_path is Some {
                self.filtered_vfs_entries@.len() as int
            } else {
                self.filtered_entries@.len() as int
            }
        } else if self.current_vfs_path is Some {
            self.vfs_entries@.len() as int
        } else {
            self.entries@.len() as int
        }
    }

    /// Shows every entry again and moves the cursor to the top.
    pub fn clear_filter(&mut self)
        ensures
            final(self).filter is None,
            final(self).filtered_entries@.len() == 0,
            final(self).filtered_vfs_entries@.len() == 0,
            final(self).selected_index == 0,
            final(self).view_offset == 0,
            final(self).entries == old(self).entries,
            final(self).vfs_entries == old(self).vfs_entries,
            final(self).current_dir == old(self).current_dir,
            final(self).current_vfs_path == old(self).current_vfs_path,
            final(self).marked_files == old(self).marked_files,
            final(self).sort_mode == old(self).sort_mode,
    {
        self.filter = None;
        self.filtered_entries.clear();
        self.filtered_vfs_entries.clear();
        self.selected_index = 0;
        self.view_offset = 0;
    }

    /// The entries the panel shows.
    pub fn get_visible_entries(&self) -> (r: &Vec<FileEntry>)
        ensures
            r@ == self.visible(),
    {
        if self.filter.is_some() {
            &self.filtered_entries
        } else {
            &self.entries
        }
    }

    /// The virtual entries the panel shows.
    pub fn get_visible_vfs_entries(&self) -> (r: &Vec<VfsEntry>)
        ensures
            r@ == self.visible_vfs(),
    {
        if self.filter.is_some() {
            &self.filtered_vfs_entries
        } else {
            &self.vfs_entries
        }
    }


    /// Sorts the entries (and the filtered entries while a filter is set) by the
    /// panel's sort mode.
    pub fn sort_entries(&mut self)
        ensures
            final(self).entries@ == mode_sorted(old(self).entries@, old(self).sort_mode),
            old(self).filter is Some ==> final(self).filtered_entries@ == mode_sorted(
                old(self).filtered_entries@,
                old(self).sort_mode,
            ),
            final(self).entries@.to_multiset() == old(self).entries@.to_multiset(),
            sorted_adjacent(final(self).entries@, old(self).sort_mode),
            old(self).filter is Some ==> final(self).filtered_entries@.to_multiset() == old(
                self,
            ).filtered_entries@.to_multiset() && sorted_adjacent(
                final(self).filtered_entries@,
                old(self).sort_mode,
            ),
            old(self).filter is None ==> final(self).filtered_entries == old(self).filtered_entries,
            *final(self) == (PanelState {
                entries: final(self).entries,
                filtered_entries: final(self).filtered_entries,
                ..*old(self)
            }),
    {
        self.entries = sort_by_mode(&self.entries, self.sort_mode);
        if self.filter.is_some() {
            self.filtered_entries = sort_by_mode(&self.filtered_entries, self.sort_mode);
        }
    }

    /// Shows a new listing of the same directory: the cursor stays, moved to
    /// the last entry where the listing got shorter, and only the marks
    /// that name a listed entry stay.
    pub fn replace_entries(&mut self, entries: Vec<FileEntry>)
        ensures
            final(self).entries == entries,
            final(self).selected_index == (if old(self).selected_index as int <= last_position(entries@.len()) {
                old(self).selected_index as int
            } else {
                last_position(entries@.len())
            }),
            final(self).marks() == marks_kept(old(self).marks(), entries@),
            *final(self) == (PanelState {
                entries: final(self).entries,
                selected_index: final(self).selected_index,
                marked_files: final(self).marked_files,
                ..*old(self)
            }),
    {
        let last = if entries.len() > 0 { entries.len() - 1 } else { 0 };
        let mut kept: Vec<String> = Vec::new();
        let mut i: usize = 0;
        while i < self.marked_files.len()
            invariant
                i <= self.marked_files@.len(),
                self.marked_files == old(self).marked_files,
                kept@.map_values(|p: String| p@) == marks_kept(
                    old(self).marks().subrange(0, i as int),
                    entries@,
                ),
            decreases self.marked_files@.len() - i,
        {
            let ghost m = old(self).marks();
            assert(m.subrange(0, i + 1).drop_last() =~= m.subrange(0, i as int));
            assert(m[i as int] == self.marked_files@[i as int]@);
            if listed_in(&entries, self.marked_files[i].as_str()) {
                let ghost before = kept@.map_values(|p: String| p@);
                kept.push(self.marked_files[i].clone());
                assert(kept@.map_values(|p: String| p@) =~= before.push(m[i as int]));
            }
            i = i + 1;
        }
        assert(old(self).marks().subrange(0, i as int) =~= old(self).marks());
        self.entries = entries;
        if self.selected_index > last {
            self.selected_index = last;
        }
        self.marked_files = kept;
    }

    /// Unmarks every path.
    pub fn clear_marks(&mut self)
        ensures
            *final(self) == (PanelState { marked_files: final(self).marked_files, ..*old(self) }),
            final(self).marked_files@.len() == 0,
    {
        self.marked_files.clear();
    }
}


/// The marks after toggling `p`: its first occurrence removed when marked,
/// appended otherwise.
pub open spec fn toggle_marks(m: Seq<Seq<char>>, p: Seq<char>) -> Seq<Seq<char>> {
    if m.contains(p) {
        crate::cache::remove_first(m, p)
    } else {
        m.push(p)
    }
}

/// The view offset after scrolling for the cursor at `sel`.
pub open spec fn view_offset_after(sel: int, vo: int, wh: int) -> int {
    if sel < vo + 3 {
        if sel >= 3 {
            sel - 3
        } else {
            0
        }
    } else if sel >= vo + wh - 3 {
        sel + 3 - wh + 1
    } else {
        vo
    }
}

/// The cursor held within `len` entries.
pub open spec fn clamp_selection(sel: int, len: int) -> int {
    if sel >= len && len > 0 {
        len - 1
    } else if len == 0 {
        0
    } else {
        sel
    }
}

/// The entries whose lowercase name contains `q`.
pub open spec fn entries_matching(es: Seq<FileEntry>, q: Seq<char>) -> Seq<FileEntry>
    decreases es.len(),
{
    if es.len() == 0 {
        es
    } else if text::seq_contains(text::lowercase(es.last().name@), q) {
        entries_matching(es.drop_last(), q).push(es.last())
    } else {
        entries_matching(es.drop_last(), q)
    }
}

/// The virtual entries whose lowercase name contains `q`.
pub open spec fn vfs_entries_matching(es: Seq<VfsEntry>, q: Seq<char>) -> Seq<VfsEntry>
    decreases es.len(),
{
    if es.len() == 0 {
        es
    } else if text::seq_contains(text::lowercase(es.last().name@), q) {
        vfs_entries_matching(es.drop_last(), q).push(es.last())
    } else {
        vfs_entries_matching(es.drop_last(), q)
    }
}


/// The result of comparing two values.
#[derive(Debug, Clone, Copy, PartialEq, Eq, Structural)]
pub enum Order {
    Less,
    Equal,
    Greater,
}

/// Lexicographic order of character sequences by code point (for UTF-8
/// strings this is the order in which strings compare).
pub open spec fn lex_order(a: Seq<char>, b: Seq<char>) -> Order
    decreases a.len(),
{
    if a.len() == 0 {
        if b.len() == 0 {
            Order::Equal
        } else {
            Order::Less
        }
    } else if b.len() == 0 {
        Order::Greater
    } else if (a[0] as u32) < (b[0] as u32) {
        Order::Less
    } else if (a[0] as u32) > (b[0] as u32) {
        Order::Greater
    } else {
        lex_order(a.drop_first(), b.drop_first())
    }
}

/// The order of two integers.
pub open spec fn int_order(a: int, b: int) -> Order {
    if a < b {
        Order::Less
    } else if a > b {
        Order::Greater
    } else {
        Order::Equal
    }
}

/// The order of two optional integers (nothing first).
pub open spec fn opt_order(a: Option<i64>, b: Option<i64>) -> Order {
    match (a, b) {
        (None, None) => Order::Equal,
        (None, Some(_)) => Order::Less,
        (Some(_), None) => Order::Greater,
        (Some(x), Some(y)) => int_order(x as int, y as int),
    }
}

/// The first order, or the second one where the first finds no difference.
pub open spec fn then_order(a: Order, b: Order) -> Order {
    if a == Order::Equal {
        b
    } else {
        a
    }
}

/// The name of the parent entry.
pub open spec fn dotdot() -> Seq<char> {
    seq!['.', '.']
}

/// An entry's extension, or the empty sequence.
pub open spec fn ext_or_empty(e: FileEntry) -> Seq<char> {
    match e.extension {
        Some(x) => x@,
        None => Seq::empty(),
    }
}

/// How a panel orders two entries: `..` first, directories before files, then
/// by the sort mode (names ignoring case, larger and newer first, extensions
/// then names).
pub open spec fn entry_order(a: FileEntry, b: FileEntry, mode: SortMode) -> Order {
    if a.name@ == dotdot() {
        Order::Less
    } else if b.name@ == dotdot() {
        Order::Greater
    } else if a.file_type == FileType::Directory && b.file_type == FileType::File {
        Order::Less
    } else if a.file_type == FileType::File && b.file_type == FileType::Directory {
        Order::Greater
    } else {
        match mode {
            SortMode::Name => lex_order(text::lowercase(a.name@), text::lowercase(b.name@)),
            SortMode::Size => int_order(b.size as int, a.size as int),
            SortMode::Modified => opt_order(b.modified, a.modified),
            SortMode::Extension => then_order(
                lex_order(ext_or_empty(a), ext_or_empty(b)),
                lex_order(text::lowercase(a.name@), text::lowercase(b.name@)),
            ),
        }
    }
}

/// Adjacent entries are in order (two `..` entries aside, which the order
/// puts each before the other).
pub open spec fn sorted_adjacent(es: Seq<FileEntry>, mode: SortMode) -> bool {
    forall|i: int|
        0 <= i < es.len() - 1 ==> entry_order(#[trigger] es[i + 1], es[i], mode) != Order::Less || (
        es[i].name@ == dotdot() && es[i + 1].name@ == dotdot())
}

pub proof fn lemma_lex_antisym(a: Seq<char>, b: Seq<char>)
    ensures
        lex_order(a, b) == Order::Less <==> lex_order(b, a) == Order::Greater,
        lex_order(a, b) == Order::Equal <==> lex_order(b, a) == Order::Equal,
    decreases a.len(),
{
    if a.len() > 0 && b.len() > 0 && a[0] as u32 == b[0] as u32 {
        lemma_lex_antisym(a.drop_first(), b.drop_first());
    }
}

proof fn lemma_entry_order_antisym(a: FileEntry, b: FileEntry, mode: SortMode)
    requires
        entry_order(a, b, mode) == Order::Less,
        entry_order(b, a, mode) == Order::Less,
    ensures
        a.name@ == dotdot() && b.name@ == dotdot(),
{
    lemma_lex_antisym(text::lowercase(a.name@), text::lowercase(b.name@));
    lemma_lex_antisym(ext_or_empty(a), ext_or_empty(b));
}

/// Where two sequences agree on their first `k` characters and then `a` has
/// the smaller code point at `k`, or ends there while `b` goes on, `a` comes
/// first.
pub proof fn lemma_lex_less_at(a: Seq<char>, b: Seq<char>, k: int)
    requires
        0 <= k <= a.len(),
        k <= b.len(),
        a.subrange(0, k) == b.subrange(0, k),
        (k < a.len() && k < b.len() && (a[k] as u32) < (b[k] as u32)) || (k == a.len() && k < b.len()),
    ensures
        lex_order(a, b) == Order::Less,
    decreases k,
{
    if k > 0 {
        assert(a[0] == a.subrange(0, k)[0]);
        assert(b[0] == b.subrange(0, k)[0]);
        assert(a.drop_first().subrange(0, k - 1) =~= a.subrange(0, k).drop_first());
        assert(b.drop_first().subrange(0, k - 1) =~= b.subrange(0, k).drop_first());
        lemma_lex_less_at(a.drop_first(), b.drop_first(), k - 1);
    }
}

/// In extension order, two entries of the same kind, neither of them `..`,
/// whose extensions differ are ordered by their extensions alone, code point
/// by code point, a missing extension counting as empty: where the extension
/// of `a` (`ea`) agrees with that of `b` (`eb`) on its first `k` characters and
/// then has the smaller code point, or ends there while `eb` goes on, `a` sorts
/// before `b` and `b` after `a`, whatever their names.
pub proof fn law_extension_order_by_extension(a: FileEntry, b: FileEntry, ea: Seq<char>, eb: Seq<char>, k: int)
    requires
        a.name@ != dotdot(),
        b.name@ != dotdot(),
        a.file_type == b.file_type,
        match a.extension {
            Some(x) => x@ == ea,
            None => ea.len() == 0,
        },
        match b.extension {
            Some(x) => x@ == eb,
            None => eb.len() == 0,
        },
        0 <= k <= ea.len(),
        k <= eb.len(),
        ea.subrange(0, k) == eb.subrange(0, k),
        (k < ea.len() && k < eb.len() && (ea[k] as u32) < (eb[k] as u32)) || (k == ea.len() && k < eb.len()),
    ensures
        entry_order(a, b, SortMode::Extension) == Order::Less,
        entry_order(b, a, SortMode::Extension) == Order::Greater,
{
    assert(ext_or_empty(a) =~= ea);
    assert(ext_or_empty(b) =~= eb);
    lemma_lex_less_at(ea, eb, k);
    lemma_lex_antisym(ea, eb);
}

/// Whatever the sort mode, `..` comes before every other entry, and a
/// directory before a file; among entries of the same kind, the size mode
/// puts the larger first, the time mode the more recently modified first (an
/// entry with a time before one without), and the extension mode, where the
/// extensions are the same, orders as the name mode does.
pub proof fn law_entry_order_rules(a: FileEntry, b: FileEntry, mode: SortMode)
    ensures
        a.name@ == dotdot() && b.name@ != dotdot() ==> entry_order(a, b, mode) == Order::Less
            && entry_order(b, a, mode) == Order::Greater,
        a.name@ != dotdot() && b.name@ != dotdot() && a.file_type == FileType::Directory && b.file_type
            == FileType::File ==> entry_order(a, b, mode) == Order::Less && entry_order(b, a, mode)
            == Order::Greater,
        a.name@ != dotdot() && b.name@ != dotdot() && a.file_type == b.file_type && a.size > b.size
            ==> entry_order(a, b, SortMode::Size) == Order::Less && entry_order(b, a, SortMode::Size)
            == Order::Greater,
        a.name@ != dotdot() && b.name@ != dotdot() && a.file_type == b.file_type && a.modified is Some
            && (b.modified matches Some(y) ==> y < a.modified->0) ==> entry_order(a, b, SortMode::Modified)
            == Order::Less && entry_order(b, a, SortMode::Modified) == Order::Greater,
        a.name@ != dotdot() && b.name@ != dotdot() && a.file_type == b.file_type && a.extension
            == b.extension ==> entry_order(a, b, SortMode::Extension) == entry_order(a, b, SortMode::Name),
{
    lemma_lex_eq_refl(ext_or_empty(a));
}

/// A sequence is equal to itself in the lexicographic order.
pub proof fn lemma_lex_eq_refl(a: Seq<char>)
    ensures
        lex_order(a, a) == Order::Equal,
    decreases a.len(),
{
    if a.len() > 0 {
        lemma_lex_eq_refl(a.drop_first());
    }
}

/// In name order, two entries of the same kind, neither of them `..`, are
/// ordered by their names with case ignored, code point by code point: where
/// the lower-case name of `a` (`la`) agrees with that of `b` (`lb`) on its
/// first `k` characters and then has the smaller code point, or ends there
/// while `lb` goes on, `a` sorts before `b`.
pub proof fn law_name_order_ignores_case(a: FileEntry, b: FileEntry, k: int)
    requires
        a.name@ != dotdot(),
        b.name@ != dotdot(),
        a.file_type == b.file_type,
        0 <= k <= text::lowercase(a.name@).len(),
        k <= text::lowercase(b.name@).len(),
        text::lowercase(a.name@).subrange(0, k) == text::lowercase(b.name@).subrange(0, k),
        (k < text::lowercase(a.name@).len() && k < text::lowercase(b.name@).len() && (text::lowercase(
            a.name@,
        )[k] as u32) < (text::lowercase(b.name@)[k] as u32)) || (k == text::lowercase(a.name@).len() && k
            < text::lowercase(b.name@).len()),
    ensures
        entry_order(a, b, SortMode::Name) == Order::Less,
        entry_order(b, a, SortMode::Name) == Order::Greater,
{
    lemma_lex_less_at(text::lowercase(a.name@), text::lowercase(b.name@), k);
    lemma_lex_antisym(text::lowercase(a.name@), text::lowercase(b.name@));
}

/// Compares two character sequences lexicographically.
pub fn lex_compare(a: &[char], b: &[char]) -> (r: Order)
    ensures
        r == lex_order(a@, b@),
{
    let mut i: usize = 0;
    assert(a@.subrange(0, a@.len() as int) =~= a@);
    assert(b@.subrange(0, b@.len() as int) =~= b@);
    while i < a.len() && i < b.len()
        invariant
            i <= a@.len(),
            i <= b@.len(),
            lex_order(a@, b@) == lex_order(a@.subrange(i as int, a@.len() as int), b@.subrange(i as int, b@.len() as int)),
        decreases a@.len() - i,
    {
        let x = a[i] as u32;
        let y = b[i] as u32;
        let ghost sa = a@.subrange(i as int, a@.len() as int);
        let ghost sb = b@.subrange(i as int, b@.len() as int);
        assert(sa[0] == a@[i as int]);
        assert(sb[0] == b@[i as int]);
        if x < y {
            return Order::Less;
        }
        if x > y {
            return Order::Greater;
        }
        assert(sa.drop_first() =~= a@.subrange(i + 1, a@.len() as int));
        assert(sb.drop_first() =~= b@.subrange(i + 1, b@.len() as int));
        i = i + 1;
    }
    if i < a.len() {
        Order::Greater
    } else if i < b.len() {
        Order::Less
    } else {
        Order::Equal
    }
}

/// Compares two names ignoring case.
fn compare_names(a: &String, b: &String) -> (r: Order)
    ensures
        r == lex_order(text::lowercase(a@), text::lowercase(b@)),
{
    let la = text::to_lowercase(a.as_str());
    let lb = text::to_lowercase(b.as_str());
    let ca = text::chars_of(la.as_str());
    let cb = text::chars_of(lb.as_str());
    lex_compare(ca.as_slice(), cb.as_slice())
}

/// Whether a string is `..`.
pub fn is_dotdot(s: &String) -> (r: bool)
    ensures
        r == (s@ == dotdot()),
{
    let c = text::chars_of(s.as_str());
    let dd: [char; 2] = ['.', '.'];
    assert(dd@ =~= dotdot());
    if c.len() != 2 {
        return false;
    }
    let r = c[0] == '.' && c[1] == '.';
    assert(r ==> c@ =~= dotdot());
    r
}

/// How a panel orders two entries (see `entry_order`).
pub fn compare_entries(a: &FileEntry, b: &FileEntry, mode: SortMode) -> (r: Order)
    ensures
        r == entry_order(*a, *b, mode),
{
    if is_dotdot(&a.name) {
        return Order::Less;
    }
    if is_dotdot(&b.name) {
        return Order::Greater;
    }
    if a.file_type == FileType::Directory && b.file_type == FileType::File {
        return Order::Less;
    }
    if a.file_type == FileType::File && b.file_type == FileType::Directory {
        return Order::Greater;
    }
    match mode {
        SortMode::Name => compare_names(&a.name, &b.name),
        SortMode::Size => if b.size < a.size {
            Order::Less
        } else if b.size > a.size {
            Order::Greater
        } else {
            Order::Equal
        },
        SortMode::Modified => match (b.modified, a.modified) {
            (None, None) => Order::Equal,
            (None, Some(_)) => Order::Less,
            (Some(_), None) => Order::Greater,
            (Some(x), Some(y)) => if x < y {
                Order::Less
            } else if x > y {
                Order::Greater
            } else {
                Order::Equal
            },
        },
        SortMode::Extension => {
            let ea = match &a.extension {
                Some(x) => text::chars_of(x.as_str()),
                None => Vec::new(),
            };
            let eb = match &b.extension {
                Some(x) => text::chars_of(x.as_str()),
                None => Vec::new(),
            };
            assert(ea@ == ext_or_empty(*a));
            assert(eb@ == ext_or_empty(*b));
            let first = lex_compare(ea.as_slice(), eb.as_slice());
            if first == Order::Equal {
                compare_names(&a.name, &b.name)
            } else {
                first
            }
        },
    }
}

/// Where an entry goes among entries sorted by `mode`: after the last one
/// it does not come before, so after those that compare alike.
pub open spec fn mode_insertion_point(s: Seq<FileEntry>, x: FileEntry, mode: SortMode) -> int
    decreases s.len(),
{
    if s.len() == 0 {
        0
    } else if entry_order(x, s.last(), mode) != Order::Less {
        s.len() as int
    } else {
        mode_insertion_point(s.drop_last(), x, mode)
    }
}

/// The entries sorted by `mode`, those that compare alike kept in the order
/// given (a stable sort).
pub open spec fn mode_sorted(v: Seq<FileEntry>, mode: SortMode) -> Seq<FileEntry>
    decreases v.len(),
{
    if v.len() == 0 {
        v
    } else {
        let s = mode_sorted(v.drop_last(), mode);
        s.insert(mode_insertion_point(s, v.last(), mode), v.last())
    }
}

proof fn lemma_mode_insertion_point(s: Seq<FileEntry>, x: FileEntry, mode: SortMode, p: int)
    requires
        0 <= p <= s.len(),
        p == 0 || entry_order(x, s[p - 1], mode) != Order::Less,
        forall|j: int| p <= j < s.len() ==> entry_order(x, #[trigger] s[j], mode) == Order::Less,
    ensures
        mode_insertion_point(s, x, mode) == p,
    decreases s.len(),
{
    if s.len() > 0 {
        if p < s.len() {
            let d = s.drop_last();
            assert(entry_order(x, s[s.len() - 1], mode) == Order::Less);
            assert forall|j: int| p <= j < d.len() implies entry_order(x, #[trigger] d[j], mode) == Order::Less by {
                assert(d[j] == s[j]);
            }
            if p > 0 {
                assert(d[p - 1] == s[p - 1]);
            }
            lemma_mode_insertion_point(d, x, mode, p);
        }
    }
}

/// Sorts entries by `mode` with a stable insertion sort.
pub fn sort_by_mode(es: &Vec<FileEntry>, mode: SortMode) -> (r: Vec<FileEntry>)
    ensures
        r@.to_multiset() == es@.to_multiset(),
        sorted_adjacent(r@, mode),
        r@ == mode_sorted(es@, mode),
{
    broadcast use vstd::seq_lib::group_to_multiset_ensures;

    let mut out: Vec<FileEntry> = Vec::new();
    let mut i: usize = 0;
    while i < es.len()
        invariant
            i <= es@.len(),
            out@.to_multiset() == es@.subrange(0, i as int).to_multiset(),
            sorted_adjacent(out@, mode),
            out@ == mode_sorted(es@.subrange(0, i as int), mode),
        decreases es@.len() - i,
    {
        let x = es[i].clone();
        let mut p: usize = out.len();
        loop
            invariant
                p <= out@.len(),
                i < es@.len(),
                x == es@[i as int],
                out@.to_multiset() == es@.subrange(0, i as int).to_multiset(),
                sorted_adjacent(out@, mode),
                out@ == mode_sorted(es@.subrange(0, i as int), mode),
                forall|j: int| p <= j < out@.len() ==> entry_order(x, #[trigger] out@[j], mode) == Order::Less,
            ensures
                p <= out@.len(),
                p == 0 || entry_order(x, out@[p - 1], mode) != Order::Less,
                forall|j: int| p <= j < out@.len() ==> entry_order(x, #[trigger] out@[j], mode) == Order::Less,
            decreases p,
        {
            if p == 0 {
                break;
            }
            if compare_entries(&x, &out[p - 1], mode) != Order::Less {
                break;
            }
            p = p - 1;
        }
        let ghost before = out@;
        out.insert(p, x);
        proof {
            lemma_mode_insertion_point(before, x, mode, p as int);
            assert(es@.subrange(0, i + 1).drop_last() =~= es@.subrange(0, i as int));
            assert(es@.subrange(0, i + 1).last() == x);
            assert(es@.subrange(0, i + 1) =~= es@.subrange(0, i as int).push(es@[i as int]));
            assert(out@ == before.insert(p as int, x));
            vstd::seq_lib::to_multiset_insert(before, p as int, x);
            vstd::seq_lib::to_multiset_build(es@.subrange(0, i as int), x);
            assert(out@.to_multiset() == before.to_multiset().insert(x));
            assert(es@.subrange(0, i + 1).to_multiset() == es@.subrange(0, i as int).to_multiset().insert(x));
            assert forall|j: int| 0 <= j < out@.len() - 1 implies entry_order(#[trigger] out@[j + 1], out@[j], mode)
                != Order::Less || (out@[j].name@ == dotdot() && out@[j + 1].name@ == dotdot()) by {
                if j + 1 < p {
                    assert(out@[j] == before[j] && out@[j + 1] == before[j + 1]);
                    assert(entry_order(before[j + 1], before[j], mode) != Order::Less || (before[j].name@
                        == dotdot() && before[j + 1].name@ == dotdot()));
                } else if j + 1 == p {
                    assert(out@[j + 1] == x && out@[j] == before[j]);
                } else if j == p {
                    assert(out@[j] == x && out@[j + 1] == before[j]);
                    if entry_order(before[j], x, mode) == Order::Less {
                        lemma_entry_order_antisym(x, before[j], mode);
                    }
                } else {
                    assert(out@[j] == before[j - 1] && out@[j + 1] == before[j]);
                    let k = j - 1;
                    assert(0 <= k < before.len() - 1);
                    assert(entry_order(before[k + 1], before[k], mode) != Order::Less || (before[k].name@
                        == dotdot() && before[k + 1].name@ == dotdot()));
                }
            }
        }
        i = i + 1;
    }
    assert(es@.subrange(0, i as int) =~= es@);
    out
}


/// A pending file operation, as the user confirmed it.
#[derive(Debug)]
pub enum FileOperation {
    Copy { sources: Vec<String>, destination: String },
    Move { sources: Vec<String>, destination: String },
    Delete { targets: Vec<String> },
    DeleteToTrash { targets: Vec<String> },
    RestoreFromTrash { targets: Vec<String> },
    CreateDir { path: String },
    Rename { old_path: String, new_name: String },
    CopyToClipboard { paths: Vec<String> },
    PasteFromClipboard { destination: String },
}

/// Which panel has the focus.
#[derive(Debug, Clone, Copy, PartialEq, Eq, Structural)]
pub enum ActivePanel {
    Left,
    Right,
}

/// What a plugin is told about the application.
#[derive(Debug)]
pub struct PluginContext {
    pub current_file: Option<String>,
    pub current_directory: String,
    pub selected_files: Vec<String>,
    pub active_panel: String,
    pub other_panel_directory: String,
}

/// What the file monitor is to do after auto-reload was switched.
#[derive(Debug, Clone, Copy, PartialEq, Eq, Structural)]
pub enum MonitorChange {
    Start,
    Stop,
    Keep,
}

/// The last position of a listing of `n` entries (0 when empty).
pub open spec fn last_position(n: nat) -> int {
    if n > 0 {
        n - 1
    } else {
        0
    }
}

/// Whether an entry of the listing has path `p`.
pub open spec fn is_listed(es: Seq<FileEntry>, p: Seq<char>) -> bool {
    exists|i: int| 0 <= i < es.len() && #[trigger] es[i].path@ == p
}

/// The marks that name a listed entry, in order.
pub open spec fn marks_kept(m: Seq<Seq<char>>, es: Seq<FileEntry>) -> Seq<Seq<char>>
    decreases m.len(),
{
    if m.len() == 0 {
        m
    } else if is_listed(es, m.last()) {
        marks_kept(m.drop_last(), es).push(m.last())
    } else {
        marks_kept(m.drop_last(), es)
    }
}

/// Whether an entry of the listing has path `p`.
fn listed_in(es: &Vec<FileEntry>, p: &str) -> (r: bool)
    ensures
        r == is_listed(es@, p@),
{
    let mut i: usize = 0;
    while i < es.len()
        invariant
            i <= es@.len(),
            forall|j: int| 0 <= j < i ==> es@[j].path@ != p@,
        decreases es@.len() - i,
    {
        if text::str_eq(es[i].path.as_str(), p) {
            return true;
        }
        i = i + 1;
    }
    false
}

/// The state with the active panel replaced by `p`.
pub open spec fn with_active(s: AppState, p: PanelState) -> AppState {
    match s.active_panel {
        ActivePanel::Left => AppState { left_panel: p, ..s },
        ActivePanel::Right => AppState { right_panel: p, ..s },
    }
}

/// The most lines of command output kept.
pub const MAX_OUTPUT_LINES: usize = 1000;

/// The command output after appending a line: the oldest line goes once
/// more than `MAX_OUTPUT_LINES` would be kept.
pub open spec fn output_after(out: Seq<String>, line: String) -> Seq<String> {
    if out.len() + 1 > MAX_OUTPUT_LINES {
        out.push(line).drop_first()
    } else {
        out.push(line)
    }
}

/// The application state: both panels, the command line and its history,
/// messages, stored connections, configuration and the directory cache.
pub struct AppState {
    pub left_panel: PanelState,
    pub right_panel: PanelState,
    pub active_panel: ActivePanel,
    pub command_line: String,
    pub command_cursor: usize,
    pub command_history: Vec<String>,
    pub command_history_index: Option<usize>,
    pub status_message: Option<String>,
    pub show_help: bool,
    pub pending_operation: Option<FileOperation>,
    pub remote_connections: Vec<(String, RemoteCredentials)>,
    pub config_manager: ConfigManager,
    /// Whether a file monitor is running.
    pub file_monitor_running: bool,
    pub auto_reload_enabled: bool,
    pub directory_cache: DirectoryCache,
    pub theme_manager: ThemeManager,
    pub command_output: VecDeque<String>,
    pub command_output_visible: bool,
    pub command_running: bool,
    pub command_output_height: u16,
}

/// The name of the archive extensions the panels can enter.
pub open spec fn is_archive_extension(ext: Seq<char>) -> bool {
    ext == "zip"@ || ext == "tar"@ || ext == "gz"@ || ext == "7z"@ || ext == "rar"@
}

/// Whether a path names an archive the panels can enter, by its extension
/// (ignoring case).
pub open spec fn is_archive_path(p: Seq<char>) -> bool {
    match paths::path_extension(p) {
        Some(e) => is_archive_extension(text::lowercase(e)),
        None => false,
    }
}

/// Whether `s` is one of the archive extensions.
fn archive_extension(s: &str) -> (r: bool)
    ensures
        r == is_archive_extension(s@),
{
    text::str_eq(s, "zip") || text::str_eq(s, "tar") || text::str_eq(s, "gz") || text::str_eq(
        s,
        "7z",
    ) || text::str_eq(s, "rar")
}

/// Whether a path names an archive, by its extension.
pub fn is_archive(path: &str) -> (r: bool)
    ensures
        r == is_archive_path(path@),
{
    match paths::extension(path) {
        Some(e) => {
            let l = text::to_lowercase(e.as_str());
            archive_extension(l.as_str())
        },
        None => false,
    }
}

/// The key under which credentials for a connection are stored.
pub open spec fn connection_key(host: Seq<char>, port: u16, username: Seq<char>) -> Seq<char> {
    username + seq![':'] + text::decimal(port as nat) + seq!['@'] + host
}

impl AppState {
    /// The panel that has the focus.
    pub open spec fn active(&self) -> PanelState {
        match self.active_panel {
            ActivePanel::Left => self.left_panel,
            ActivePanel::Right => self.right_panel,
        }
    }

    /// The panel that does not have the focus.
    pub open spec fn inactive(&self) -> PanelState {
        match self.active_panel {
            ActivePanel::Left => self.right_panel,
            ActivePanel::Right => self.left_panel,
        }
    }

    /// The state of a freshly started application showing `current_dir` in both
    /// panels, with the Git status of that directory.
    pub fn new(
        current_dir: String,
        config_manager: ConfigManager,
        git_info_left: Option<GitInfo>,
        git_info_right: Option<GitInfo>,
        now: u64,
    ) -> (r: Self)
        ensures
            r.left_panel.current_dir@ == current_dir@,
            r.right_panel.current_dir@ == current_dir@,
            r.left_panel.git_info == git_info_left,
            r.right_panel.git_info == git_info_right,
            r.active_panel == ActivePanel::Left,
            r.command_line@.len() == 0,
            r.command_cursor == 0,
            r.command_history@.len() == 0,
            r.command_history_index is None,
            r.status_message is None,
            !r.show_help,
            r.pending_operation is None,
            r.remote_connections@.len() == 0,
            r.auto_reload_enabled == config_manager.current().general.auto_reload,
            !r.file_monitor_running,
            r.directory_cache.wf(),
            r.directory_cache.config() == (CacheConfig {
                max_entries: 1000,
                ttl: 300_000_000_000u64,
                max_memory_bytes: 104_857_600u64,
                enable_background_refresh: true,
                frequent_access_threshold: 5,
            }),
            r.directory_cache.state().slots.len() == 0,
            r.theme_manager.wf(),
            r.theme_manager.current() == crate::theme::dark_palette(),
            r.theme_manager.index() == 0,
            r.theme_manager.rotated_at() == now,
            r.command_output@.len() == 0,
            !r.command_output_visible,
            !r.command_running,
            r.command_output_height == 10,
    {
        let auto_reload_enabled = config_manager.get().general.auto_reload;
        let cache_config = CacheConfig {
            max_entries: 1000,
            ttl: 300_000_000_000u64,
            max_memory_bytes: 104_857_600u64,
            enable_background_refresh: true,
            frequent_access_threshold: 5,
        };
        let left_dir = current_dir.clone();
        AppState {
            left_panel: PanelState::new(left_dir, git_info_left),
            right_panel: PanelState::new(current_dir, git_info_right),
            active_panel: ActivePanel::Left,
            command_line: String::new(),
            command_cursor: 0,
            command_history: Vec::new(),
            command_history_index: None,
            status_message: None,
            show_help: false,
            pending_operation: None,
            remote_connections: Vec::new(),
            config_manager,
            file_monitor_running: false,
            auto_reload_enabled,
            directory_cache: DirectoryCache::with_config(cache_config),
            theme_manager: ThemeManager::new(ThemeMode::Dark, now),
            command_output: VecDeque::new(),
            command_output_visible: false,
            command_running: false,
            command_output_height: 10,
        }
    }

    /// The panel that has the focus.
    pub fn active_panel(&self) -> (r: &PanelState)
        ensures
            *r == self.active(),
    {
        match self.active_panel {
            ActivePanel::Left => &self.left_panel,
            ActivePanel::Right => &self.right_panel,
        }
    }

    /// The panel that has the focus, to change.
    pub fn active_panel_mut(&mut self) -> (r: &mut PanelState)
        ensures
            *r == old(self).active(),
            *final(self) == with_active(*old(self), *final(r)),
    {
        match self.active_panel {
            ActivePanel::Left => &mut self.left_panel,
            ActivePanel::Right => &mut self.right_panel,
        }
    }

    /// The panel that does not have the focus.
    pub fn inactive_panel(&self) -> (r: &PanelState)
        ensures
            *r == self.inactive(),
    {
        match self.active_panel {
            ActivePanel::Left => &self.right_panel,
            ActivePanel::Right => &self.left_panel,
        }
    }

    /// Gives the focus to the other panel.
    pub fn toggle_panel(&mut self)
        ensures
            final(self).active_panel == (match old(self).active_panel {
                ActivePanel::Left => ActivePanel::Right,
                ActivePanel::Right => ActivePanel::Left,
            }),
            final(self).left_panel == old(self).left_panel,
            final(self).right_panel == old(self).right_panel,
            final(self).status_message == old(self).status_message,
            final(self).command_output == old(self).command_output,
            *final(self) == (AppState { active_panel: final(self).active_panel, ..*old(self) }),
    {
        self.active_panel = match self.active_panel {
            ActivePanel::Left => ActivePanel::Right,
            ActivePanel::Right => ActivePanel::Left,
        };
    }

    /// Shows a status message.
    pub fn set_status_message(&mut self, message: String)
        ensures
            *final(self) == (AppState { status_message: Some(message), ..*old(self) }),
            final(self).status_message == Some(message),
            final(self).command_output == old(self).command_output,
            final(self).theme_manager == old(self).theme_manager,
            final(self).left_panel == old(self).left_panel,
            final(self).right_panel == old(self).right_panel,
            final(self).active_panel == old(self).active_panel,
    {
        self.status_message = Some(message);
    }

    /// Hides the status message.
    pub fn clear_status_message(&mut self)
        ensures
            final(self).status_message is None,
            final(self).left_panel == old(self).left_panel,
            final(self).right_panel == old(self).right_panel,
            final(self).active_panel == old(self).active_panel,
    {
        self.status_message = None;
    }

    /// Appends a line of command output, dropping the oldest line beyond
    /// `MAX_OUTPUT_LINES`.
    pub fn add_command_output(&mut self, line: String)
        ensures
            *final(self) == (AppState { command_output: final(self).command_output, ..*old(self) }),
            final(self).command_output@ == output_after(old(self).command_output@, line),
            final(self).status_message == old(self).status_message,
            final(self).left_panel == old(self).left_panel,
            final(self).right_panel == old(self).right_panel,
            final(self).active_panel == old(self).active_panel,
            final(self).theme_manager == old(self).theme_manager,
            final(self).command_output_visible == old(self).command_output_visible,
            final(self).command_running == old(self).command_running,
    {
        self.command_output.push_back(line);
        if self.command_output.len() > MAX_OUTPUT_LINES {
            self.command_output.pop_front();
        }
    }

    /// Drops all command output.
    pub fn clear_command_output(&mut self)
        ensures
            *final(self) == (AppState { command_output: final(self).command_output, ..*old(self) }),
            final(self).command_output@.len() == 0,
            final(self).command_output_visible == old(self).command_output_visible,
    {
        self.command_output.clear();
    }

    /// Shows or hides the command output.
    pub fn toggle_command_output(&mut self)
        ensures
            *final(self) == (AppState { command_output_visible: !old(self).command_output_visible, ..*old(self) }),
            final(self).command_output_visible == !old(self).command_output_visible,
            final(self).command_output@ == old(self).command_output@,
    {
        self.command_output_visible = !self.command_output_visible;
    }

    /// Records whether a command runs; a running command shows the output.
    pub fn set_command_running(&mut self, running: bool)
        ensures
            *final(self) == (AppState {
                command_running: running,
                command_output_visible: running || old(self).command_output_visible,
                ..*old(self)
            }),
            final(self).command_running == running,
            final(self).command_output_visible == (running || old(self).command_output_visible),
            final(self).command_output@ == old(self).command_output@,
    {
        self.command_running = running;
        if running {
            self.command_output_visible = true;
        }
    }

    /// Whether file monitoring is active.
    pub fn is_file_monitoring_active(&self) -> (r: bool)
        ensures
            r == (self.file_monitor_running && self.auto_reload_enabled),
    {
        self.file_monitor_running && self.auto_reload_enabled
    }

    /// Starts file monitoring when auto-reload is on: the monitor runs and
    /// the directories of both panels (left, then right) are to be watched.
    /// With auto-reload off nothing happens.
    pub fn init_file_monitor(&mut self) -> (r: Option<Vec<String>>)
        ensures
            old(self).auto_reload_enabled ==> *final(self) == (AppState { file_monitor_running: true, ..*old(self) })
                && (r matches Some(v) && v@ == seq![old(self).left_panel.current_dir, old(self).right_panel.current_dir]),
            !old(self).auto_reload_enabled ==> *final(self) == *old(self) && r is None,
    {
        if self.auto_reload_enabled {
            self.file_monitor_running = true;
            let mut dirs = Vec::new();
            dirs.push(self.left_panel.current_dir.clone());
            dirs.push(self.right_panel.current_dir.clone());
            Some(dirs)
        } else {
            None
        }
    }

    /// The directory to stop watching and the one to watch when a panel
    /// changes to `new_path` while the monitor runs.
    pub fn update_file_monitoring(&self, panel: ActivePanel, new_path: &str) -> (r: Option<(String, String)>)
        ensures
            self.file_monitor_running ==> (r matches Some((old_dir, new_dir)) && old_dir == (match panel {
                ActivePanel::Left => self.left_panel.current_dir,
                ActivePanel::Right => self.right_panel.current_dir,
            }) && new_dir@ == new_path@),
            !self.file_monitor_running ==> r is None,
    {
        if self.file_monitor_running {
            let old_dir = match panel {
                ActivePanel::Left => self.left_panel.current_dir.clone(),
                ActivePanel::Right => self.right_panel.current_dir.clone(),
            };
            Some((old_dir, String::from_str(new_path)))
        } else {
            None
        }
    }

    /// Turns auto-reload on or off, starts or stops the monitor to match,
    /// and records the setting in the configuration.
    pub fn toggle_auto_reload(&mut self) -> (r: MonitorChange)
        ensures
            final(self).auto_reload_enabled == !old(self).auto_reload_enabled,
            r == (if !old(self).auto_reload_enabled && !old(self).file_monitor_running {
                MonitorChange::Start
            } else if old(self).auto_reload_enabled && old(self).file_monitor_running {
                MonitorChange::Stop
            } else {
                MonitorChange::Keep
            }),
            final(self).file_monitor_running == (match r {
                MonitorChange::Start => true,
                MonitorChange::Stop => false,
                MonitorChange::Keep => old(self).file_monitor_running,
            }),
            crate::config::config_same(
                final(self).config_manager.current(),
                crate::config::Config {
                    general: crate::config::GeneralConfig {
                        auto_reload: !old(self).auto_reload_enabled,
                        ..old(self).config_manager.current().general
                    },
                    ..old(self).config_manager.current()
                },
            ),
            final(self).config_manager.path() == old(self).config_manager.path(),
            *final(self) == (AppState {
                auto_reload_enabled: final(self).auto_reload_enabled,
                file_monitor_running: final(self).file_monitor_running,
                config_manager: final(self).config_manager,
                ..*old(self)
            }),
    {
        self.auto_reload_enabled = !self.auto_reload_enabled;
        let change = if self.auto_reload_enabled && !self.file_monitor_running {
            self.file_monitor_running = true;
            MonitorChange::Start
        } else if !self.auto_reload_enabled && self.file_monitor_running {
            self.file_monitor_running = false;
            MonitorChange::Stop
        } else {
            MonitorChange::Keep
        };
        let mut config = self.config_manager.get();
        config.general.auto_reload = self.auto_reload_enabled;
        self.config_manager.update(config);
        change
    }

    /// Stores credentials for reuse under `username:port@host`, replacing those
    /// stored for the same connection.
    pub fn store_connection_credentials(
        &mut self,
        host: &str,
        port: u16,
        username: &str,
        credentials: RemoteCredentials,
    )
        ensures
            final(self).connections() == stored(
                old(self).connections(),
                connection_key(host@, port, username@),
                credentials,
            ),
            final(self).left_panel == old(self).left_panel,
            final(self).right_panel == old(self).right_panel,
    {
        let mut key = username.to_owned();
        key.append(":");
        let port_text = decimal_port(port);
        key.append(port_text.as_str());
        key.append("@");
        key.append(host);
        proof {
            reveal_strlit(":");
            reveal_strlit("@");
        }
        assert(key@ =~= connection_key(host@, port, username@));
        let ghost c0 = self.connections();
        let mut i: usize = 0;
        while i < self.remote_connections.len()
            invariant
                i <= self.remote_connections@.len(),
                self.remote_connections@ == old(self).remote_connections@,
                self.left_panel == old(self).left_panel,
                self.right_panel == old(self).right_panel,
                c0 == self.connections(),
                key@ == connection_key(host@, port, username@),
                forall|j: int| 0 <= j < i ==> c0[j].0 != key@,
            decreases self.remote_connections@.len() - i,
        {
            if text::str_eq(self.remote_connections[i].0.as_str(), key.as_str()) {
                let (k, _) = self.remote_connections.remove(i);
                self.remote_connections.insert(i, (k, credentials));
                proof {
                    assert(self.connections() =~= c0.update(i as int, (key@, credentials)));
                    lemma_stored_update(c0, key@, credentials, i as int);
                }
                return;
            }
            i = i + 1;
        }
        self.remote_connections.push((key, credentials));
        proof {
            assert(self.connections() =~= c0.push((key@, credentials)));
            lemma_stored_push(c0, key@, credentials);
        }
    }

    /// The stored connections by key.
    pub open spec fn connections(&self) -> Seq<(Seq<char>, RemoteCredentials)> {
        self.remote_connections@.map_values(|p: (String, RemoteCredentials)| (p.0@, p.1))
    }

    /// Whether the cursor is on something that can be entered: a directory (or
    /// virtual directory), or an archive by its extension.
    pub fn can_navigate_into_current(&self) -> (r: bool)
        ensures
            r == if self.active().current_vfs_path is Some {
                self.active().selected_index < self.active().visible_vfs().len()
                    && self.active().visible_vfs()[self.active().selected_index as int].entry_type
                    == crate::vfs::VfsEntryType::Directory
            } else {
                match self.active().current_entry_spec() {
                    Some(e) => e.file_type == FileType::Directory || is_archive_path(e.path@),
                    None => false,
                }
            },
    {
        let panel = self.active_panel();
        if panel.is_using_vfs() {
            match panel.current_vfs_entry() {
                Some(e) => e.entry_type == crate::vfs::VfsEntryType::Directory,
                None => false,
            }
        } else {
            match panel.current_entry() {
                Some(e) => e.file_type == FileType::Directory || is_archive(e.path.as_str()),
                None => false,
            }
        }
    }

    /// What plugins are told: the file under the cursor, the marked files (or
    /// the file under the cursor when nothing is marked), and both directories.
    pub fn create_plugin_context(&self) -> (r: PluginContext)
        ensures
            r.current_directory == self.active().current_dir,
            r.other_panel_directory == self.inactive().current_dir,
            r.active_panel@ == (match self.active_panel {
                ActivePanel::Left => "left"@,
                ActivePanel::Right => "right"@,
            }),
            self.active().current_vfs_path is Some ==> r.selected_files@.len() == 0 && (
            r.current_file matches Some(f) ==> self.active().selected_index
                < self.active().visible_vfs().len() && f@ == self.active().visible_vfs()[self.active().selected_index as int].name@),
            self.active().current_vfs_path is Some ==> (r.current_file is None
                <==> self.active().selected_index >= self.active().visible_vfs().len()),
            self.active().current_vfs_path is None ==> (r.current_file matches Some(f) ==> (
            self.active().current_entry_spec() matches Some(e) && f@ == e.path@)),
            self.active().current_vfs_path is None ==> (r.current_file is None
                <==> self.active().current_entry_spec() is None),
            self.active().current_vfs_path is None && self.active().marked_files@.len() > 0
                ==> r.selected_files@ == self.active().marked_files@,
            self.active().current_vfs_path is None && self.active().marked_files@.len() == 0
                ==> (match self.active().current_entry_spec() {
                Some(e) => r.selected_files@.len() == 1 && r.selected_files@[0]@ == e.path@,
                None => r.selected_files@.len() == 0,
            }),
    {
        let panel = self.active_panel();
        let other = self.inactive_panel();
        let current_file = if panel.is_using_vfs() {
            match panel.current_vfs_entry() {
                Some(e) => Some(e.name.clone()),
                None => None,
            }
        } else {
            match panel.current_entry() {
                Some(e) => Some(e.path.clone()),
                None => None,
            }
        };
        let mut selected_files: Vec<String> = Vec::new();
        if panel.is_using_vfs() {
        } else if panel.marked_files.len() == 0 {
            match &current_file {
                Some(f) => selected_files.push(f.clone()),
                None => {},
            }
        } else {
            selected_files = crate::config::clone_strings(&panel.marked_files);
        }
        PluginContext {
            current_file,
            current_directory: panel.current_dir.clone(),
            selected_files,
            active_panel: match self.active_panel {
                ActivePanel::Left => String::from_str("left"),
                ActivePanel::Right => String::from_str("right"),
            },
            other_panel_directory: other.current_dir.clone(),
        }
    }

    /// Recalls the previous command of the history into the command line.
    pub fn navigate_history_up(&mut self)
        requires
            old(self).command_history_index matches Some(i) ==> i < old(self).command_history@.len(),
        ensures
            old(self).command_history@.len() == 0 ==> *final(self) == *old(self),
            old(self).command_history@.len() == 0 ==> final(self).command_line == old(
                self,
            ).command_line && final(self).command_history_index == old(self).command_history_index,
            old(self).command_history@.len() > 0 ==> {
                let n = old(self).command_history@.len();
                let idx: int = match old(self).command_history_index {
                    None => n - 1,
                    Some(i) => if i > 0 { i - 1 } else { i as int },
                };
                &&& final(self).command_history_index == Some(idx as usize)
                &&& (0 <= idx < n ==> final(self).command_line@ == old(self).command_history@[idx]@)
                &&& final(self).command_cursor as nat == byte_length_of(final(self).command_line@)
            },
            *final(self) == (AppState {
                command_line: final(self).command_line,
                command_cursor: final(self).command_cursor,
                command_history_index: final(self).command_history_index,
                ..*old(self)
            }),
            final(self).command_history == old(self).command_history,
    {
        if self.command_history.len() > 0 {
            let new_index = match self.command_history_index {
                None => self.command_history.len() - 1,
                Some(i) => if i > 0 {
                    i - 1
                } else {
                    i
                },
            };
            self.command_history_index = Some(new_index);
            self.command_line = self.command_history[new_index].clone();
            self.command_cursor = self.command_line.as_str().len();
        }
    }

    /// Recalls the next command of the history, or clears the command line past
    /// the newest one.
    pub fn navigate_history_down(&mut self)
        requires
            old(self).command_history_index matches Some(i) ==> i < old(self).command_history@.len(),
        ensures
            old(self).command_history_index is None ==> *final(self) == *old(self),
            old(self).command_history_index is None ==> final(self).command_line == old(
                self,
            ).command_line && final(self).command_history_index is None,
            old(self).command_history_index matches Some(i) ==> (if i + 1
                < old(self).command_history@.len() {
                final(self).command_history_index == Some((i + 1) as usize)
                    && final(self).command_line@ == old(self).command_history@[i + 1]@
            } else {
                final(self).command_history_index is None && final(self).command_line@.len() == 0
            }) && final(self).command_cursor as nat == byte_length_of(final(self).command_line@),
            *final(self) == (AppState {
                command_line: final(self).command_line,
                command_cursor: final(self).command_cursor,
                command_history_index: final(self).command_history_index,
                ..*old(self)
            }),
            final(self).command_history == old(self).command_history,
    {
        match self.command_history_index {
            Some(index) => {
                if index < self.command_history.len() - 1 {
                    self.command_history_index = Some(index + 1);
                    self.command_line = self.command_history[index + 1].clone();
                } else {
                    self.command_history_index = None;
                    self.command_line = String::new();
                }
                self.command_cursor = self.command_line.as_str().len();
            },
            None => {},
        }
    }

    /// Marks every shown entry of the active panel that is not marked yet,
    /// except `..`, in the order shown.
    pub fn mark_all_files(&mut self)
        ensures
            final(self).active().marks() == marks_after_all(
                old(self).active().marks(),
                old(self).active().visible(),
            ),
            final(self).active_panel == old(self).active_panel,
            final(self).inactive() == old(self).inactive(),
            final(self).active() == (PanelState {
                marked_files: final(self).active().marked_files,
                ..old(self).active()
            }),
    {
        match self.active_panel {
            ActivePanel::Left => mark_all(&mut self.left_panel),
            ActivePanel::Right => mark_all(&mut self.right_panel),
        }
    }

    /// Opens a virtual location in the active panel.  Remote locations are not
    /// available in this build; local ones are listed by `list_local`.
    pub fn navigate_into_vfs<F: Fn(&str) -> Result<Vec<VfsEntry>, VfsError>>(
        &mut self,
        vfs_path: VfsPath,
        list_local: F,
    ) -> (r: Result<(), VfsError>)
        requires
            forall|s: &str| call_requires(list_local, (s,)),
        ensures
            vfs_path@ is Sftp ==> r matches Err(VfsError::SftpUnavailable),
            vfs_path@ is Ftp ==> r matches Err(VfsError::FtpUnavailable),
            r is Err ==> final(self).left_panel == old(self).left_panel && final(self).right_panel
                == old(self).right_panel,
            vfs_path@ is Archive ==> r is Ok,
            r is Ok ==> {
                &&& final(self).active().current_vfs_path == Some(vfs_path)
                &&& final(self).active().filtered_vfs_entries@.len() == 0
                &&& final(self).active().selected_index == 0
                &&& final(self).active().view_offset == 0
                &&& (vfs_path@ is Archive ==> final(self).active().vfs_entries@.len() == 0)
                &&& final(self).active().entries == old(self).active().entries
                &&& final(self).active().current_dir == old(self).active().current_dir
                &&& final(self).inactive() == old(self).inactive()
                &&& final(self).active() == (PanelState {
                    current_vfs_path: Some(vfs_path),
                    vfs_entries: final(self).active().vfs_entries,
                    filtered_vfs_entries: final(self).active().filtered_vfs_entries,
                    selected_index: 0,
                    view_offset: 0,
                    ..old(self).active()
                })
            },
            r is Err ==> *final(self) == *old(self),
            *final(self) == with_active(*old(self), final(self).active()),
            final(self).active_panel == old(self).active_panel,
    {
        match &vfs_path {
            VfsPath::Sftp { .. } => {
                return Err(VfsError::SftpUnavailable);
            },
            VfsPath::Ftp { .. } => {
                return Err(VfsError::FtpUnavailable);
            },
            _ => {},
        }
        let vfs = VirtualFileSystem::new();
        proof {
            assert(crate::vfs::first_provider(vfs.providers(), vfs_path@) == (if vfs_path@ is Local {
                Some(0int)
            } else {
                Some(1int)
            })) by {
                reveal_with_fuel(crate::vfs::first_provider, 3);
            }
        }
        let entries = match vfs.list_entries(&vfs_path, list_local) {
            Ok(v) => v,
            Err(e) => {
                return Err(e);
            },
        };
        match self.active_panel {
            ActivePanel::Left => open_vfs(&mut self.left_panel, vfs_path, entries),
            ActivePanel::Right => open_vfs(&mut self.right_panel, vfs_path, entries),
        }
        Ok(())
    }

    /// Leaves a virtual location: the panel returns to the regular file system,
    /// to the directory holding the archive when it was in an archive.
    pub fn navigate_back_from_vfs(&mut self)
        ensures
            final(self).active_panel == old(self).active_panel,
            final(self).inactive() == old(self).inactive(),
            old(self).active().current_vfs_path is None ==> final(self).active() == old(self).active(),
            old(self).active().current_vfs_path is Some ==> {
                &&& final(self).active().current_vfs_path is None
                &&& final(self).active().vfs_entries@.len() == 0
                &&& final(self).active().filtered_vfs_entries@.len() == 0
                &&& final(self).active().current_dir@ == (match old(self).active().current_vfs_path.unwrap()@ {
                    VfsPathView::Archive { archive_path, .. } => match paths::path_parent(archive_path) {
                        Some(p) => p,
                        None => old(self).active().current_dir@,
                    },
                    _ => old(self).active().current_dir@,
                })
                &&& final(self).active().entries == old(self).active().entries
                &&& final(self).active().marked_files == old(self).active().marked_files
                &&& final(self).active() == (PanelState {
                    current_vfs_path: None,
                    vfs_entries: final(self).active().vfs_entries,
                    filtered_vfs_entries: final(self).active().filtered_vfs_entries,
                    current_dir: final(self).active().current_dir,
                    ..old(self).active()
                })
            },
            *final(self) == with_active(*old(self), final(self).active()),
    {
        match self.active_panel {
            ActivePanel::Left => close_vfs(&mut self.left_panel),
            ActivePanel::Right => close_vfs(&mut self.right_panel),
        }
    }
}

/// The port in decimal.
fn decimal_port(port: u16) -> (s: String)
    ensures
        s@ == text::decimal(port as nat),
{
    text::decimal_string(port as u64)
}

/// Bytes of the UTF-8 encoding of a character sequence.
pub open spec fn byte_length_of(s: Seq<char>) -> nat {
    vstd::utf8::encode_utf8(s).len() as usize as nat
}

/// The connections after storing `v` under `k`: the first entry of `k`
/// replaced in place, or a new entry at the end.
pub open spec fn stored(c: Seq<(Seq<char>, RemoteCredentials)>, k: Seq<char>, v: RemoteCredentials) -> Seq<
    (Seq<char>, RemoteCredentials),
>
    decreases c.len(),
{
    if c.len() == 0 {
        seq![(k, v)]
    } else if c[0].0 == k {
        c.update(0, (k, v))
    } else {
        seq![c[0]] + stored(c.drop_first(), k, v)
    }
}

proof fn lemma_stored_update(c: Seq<(Seq<char>, RemoteCredentials)>, k: Seq<char>, v: RemoteCredentials, i: int)
    requires
        0 <= i < c.len(),
        c[i].0 == k,
        forall|j: int| 0 <= j < i ==> c[j].0 != k,
    ensures
        stored(c, k, v) == c.update(i, (k, v)),
    decreases i,
{
    if i > 0 {
        assert forall|j: int| 0 <= j < i - 1 implies c.drop_first()[j].0 != k by {
            assert(c.drop_first()[j] == c[j + 1]);
        }
        lemma_stored_update(c.drop_first(), k, v, i - 1);
        assert(seq![c[0]] + c.drop_first().update(i - 1, (k, v)) =~= c.update(i, (k, v)));
    }
}

proof fn lemma_stored_push(c: Seq<(Seq<char>, RemoteCredentials)>, k: Seq<char>, v: RemoteCredentials)
    requires
        forall|j: int| 0 <= j < c.len() ==> c[j].0 != k,
    ensures
        stored(c, k, v) == c.push((k, v)),
    decreases c.len(),
{
    if c.len() > 0 {
        assert forall|j: int| 0 <= j < c.drop_first().len() implies c.drop_first()[j].0 != k by {
            assert(c.drop_first()[j] == c[j + 1]);
        }
        lemma_stored_push(c.drop_first(), k, v);
        assert(seq![c[0]] + c.drop_first().push((k, v)) =~= c.push((k, v)));
    } else {
        assert(seq![(k, v)] =~= c.push((k, v)));
    }
}

/// Credentials stored for a connection are the ones found for it
/// afterwards, those of other connections stay, and each connection keeps
/// one entry.
pub proof fn law_store_then_lookup(
    c: Seq<(Seq<char>, RemoteCredentials)>,
    k: Seq<char>,
    v: RemoteCredentials,
    other: Seq<char>,
)
    requires
        crate::cache::distinct_keys(c),
    ensures
        crate::cache::lookup(stored(c, k, v), k) == Some(v),
        other != k ==> crate::cache::lookup(stored(c, k, v), other) == crate::cache::lookup(c, other),
        crate::cache::distinct_keys(stored(c, k, v)),
{
    if crate::cache::has_key(c, k) {
        let i = crate::cache::key_index(c, k);
        assert forall|j: int| 0 <= j < i implies c[j].0 != k by {}
        lemma_stored_update(c, k, v, i);
    } else {
        lemma_stored_push(c, k, v);
    }
    crate::cache::lemma_insert_key(c, k, v);
}

/// The marks after marking every entry of `es` that is not `..` and not yet
/// marked, in order.
pub open spec fn marks_after_all(m: Seq<Seq<char>>, es: Seq<FileEntry>) -> Seq<Seq<char>>
    decreases es.len(),
{
    if es.len() == 0 {
        m
    } else {
        let prev = marks_after_all(m, es.drop_last());
        let e = es.last();
        if e.name@ != dotdot() && !prev.contains(e.path@) {
            prev.push(e.path@)
        } else {
            prev
        }
    }
}

/// Marks every shown entry of a panel (see `AppState::mark_all_files`).
fn mark_all(panel: &mut PanelState)
    ensures
        final(panel).marks() == marks_after_all(old(panel).marks(), old(panel).visible()),
        *final(panel) == (PanelState { marked_files: final(panel).marked_files, ..*old(panel) }),
{
    let entries = crate::cache::clone_entries(panel.get_visible_entries());
    let mut i: usize = 0;
    while i < entries.len()
        invariant
            i <= entries@.len(),
            entries@ == old(panel).visible(),
            *panel == (PanelState { marked_files: panel.marked_files, ..*old(panel) }),
            panel.marks() == marks_after_all(old(panel).marks(), entries@.subrange(0, i as int)),
        decreases entries@.len() - i,
    {
        assert(entries@.subrange(0, i + 1).drop_last() =~= entries@.subrange(0, i as int));
        let e = &entries[i];
        if !is_dotdot(&e.name) && !panel.is_marked(e.path.as_str()) {
            panel.marked_files.push(e.path.clone());
            assert(panel.marks() =~= marks_after_all(old(panel).marks(), entries@.subrange(0, i as int)).push(e.path@));
        }
        i = i + 1;
    }
    assert(entries@.subrange(0, i as int) =~= entries@);
}

/// Shows a virtual listing in a panel.
fn open_vfs(panel: &mut PanelState, path: VfsPath, entries: Vec<VfsEntry>)
    ensures
        final(panel).current_vfs_path == Some(path),
        final(panel).vfs_entries == entries,
        final(panel).filtered_vfs_entries@.len() == 0,
        *final(panel) == (PanelState {
            current_vfs_path: Some(path),
            vfs_entries: entries,
            filtered_vfs_entries: final(panel).filtered_vfs_entries,
            selected_index: 0,
            view_offset: 0,
            ..*old(panel)
        }),
        final(panel).selected_index == 0,
        final(panel).view_offset == 0,
        final(panel).entries == old(panel).entries,
        final(panel).current_dir == old(panel).current_dir,
{
    panel.current_vfs_path = Some(path);
    panel.vfs_entries = entries;
    panel.filtered_vfs_entries.clear();
    panel.selected_index = 0;
    panel.view_offset = 0;
}

/// Leaves a virtual listing in a panel.
fn close_vfs(panel: &mut PanelState)
    ensures
        old(panel).current_vfs_path is None ==> *final(panel) == *old(panel),
        old(panel).current_vfs_path is Some ==> {
            &&& final(panel).current_vfs_path is None
            &&& final(panel).vfs_entries@.len() == 0
            &&& final(panel).filtered_vfs_entries@.len() == 0
            &&& final(panel).current_dir@ == (match old(panel).current_vfs_path.unwrap()@ {
                VfsPathView::Archive { archive_path, .. } => match paths::path_parent(archive_path) {
                    Some(p) => p,
                    None => old(panel).current_dir@,
                },
                _ => old(panel).current_dir@,
            })
            &&& final(panel).entries == old(panel).entries
            &&& final(panel).marked_files == old(panel).marked_files
            &&& *final(panel) == (PanelState {
                current_vfs_path: None,
                vfs_entries: final(panel).vfs_entries,
                filtered_vfs_entries: final(panel).filtered_vfs_entries,
                current_dir: final(panel).current_dir,
                ..*old(panel)
            })
        },
{
    let parent = match &panel.current_vfs_path {
        None => {
            return;
        },
        Some(VfsPath::Archive { archive_path, .. }) => paths::parent(archive_path.as_str()),
        Some(_) => None,
    };
    match parent {
        Some(p) => {
            panel.current_dir = p;
        },
        None => {},
    }
    panel.current_vfs_path = None;
    panel.vfs_entries.clear();
    panel.filtered_vfs_entries.clear();
}

/// The smaller of two integers.
pub open spec fn min(a: int, b: int) -> int {
    if a <= b {
        a
    } else {
        b
    }
}

/// Marking an unmarked entry and toggling it again leaves the marks as they
/// were.
pub proof fn law_toggle_mark_twice(m: Seq<Seq<char>>, p: Seq<char>)
    requires
        !m.contains(p),
    ensures
        toggle_marks(toggle_marks(m, p), p) == m,
{
    let t = m.push(p);
    assert(t[m.len() as int] == p);
    assert(t.contains(p));
    assert forall|j: int| 0 <= j < m.len() implies t[j] != p by {
        assert(t[j] == m[j]);
    }
    crate::cache::lemma_first_index(t, p, m.len() as int);
    assert(t.remove(m.len() as int) =~= m);
}

/// After scrolling, the cursor is on screen whenever the window shows at
/// least four entries.
pub proof fn law_view_offset_shows_cursor(sel: int, vo: int, wh: int)
    requires
        0 <= sel,
        0 <= vo,
        wh >= 4,
    ensures
        0 <= view_offset_after(sel, vo, wh) <= sel < view_offset_after(sel, vo, wh) + wh,
{
}

/// Holding the cursor within the entries puts it on an entry whenever there
/// is one.
pub proof fn law_clamped_selection_in_range(sel: int, len: int)
    requires
        0 <= sel,
        len > 0,
    ensures
        0 <= clamp_selection(sel, len) < len,
{
}

} // verus!
