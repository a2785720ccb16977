//! The bookkeeping of a file-system watcher: which directories are watched
//! (and whether recursively), while the watcher runs. Paths are compared
//! by their components, as `Path`'s `==` compares them. Starting the
//! watcher and asking it to watch a path is left to the caller.

use vstd::prelude::*;
use crate::paths::{self, path_eq};

verus! {

/// The position of the first watched path that equals `p`.
pub open spec fn first_match(ps: Seq<(Seq<char>, bool)>, p: Seq<char>) -> Option<int>
    decreases ps.len(),
{
    if ps.len() == 0 {
        None
    } else if path_eq(ps[0].0, p) {
        Some(0)
    } else {
        match first_match(ps.drop_first(), p) {
            Some(i) => Some(i + 1),
            None => None,
        }
    }
}

/// The watched paths after watching `p`: the mode of an equal path already
/// watched is replaced (its path kept), else `p` is added at the end.
pub open spec fn with_watch(ps: Seq<(Seq<char>, bool)>, p: Seq<char>, recursive: bool) -> Seq<(Seq<char>, bool)> {
    match first_match(ps, p) {
        Some(i) => ps.update(i, (ps[i].0, recursive)),
        None => ps.push((p, recursive)),
    }
}

/// The watched paths after no longer watching `p`.
pub open spec fn without_watch(ps: Seq<(Seq<char>, bool)>, p: Seq<char>) -> Seq<(Seq<char>, bool)> {
    match first_match(ps, p) {
        Some(i) => ps.remove(i),
        None => ps,
    }
}

proof fn lemma_first_match(ps: Seq<(Seq<char>, bool)>, p: Seq<char>, i: int)
    requires
        0 <= i <= ps.len(),
        forall|j: int| 0 <= j < i ==> !path_eq(#[trigger] ps[j].0, p),
    ensures
        i < ps.len() && path_eq(ps[i].0, p) ==> first_match(ps, p) == Some(i),
        i == ps.len() ==> first_match(ps, p) is None,
    decreases i,
{
    if i > 0 {
        let d = ps.drop_first();
        assert forall|j: int| 0 <= j < i - 1 implies !path_eq(#[trigger] d[j].0, p) by {
            assert(d[j] == ps[j + 1]);
        }
        lemma_first_match(d, p, i - 1);
        assert(!path_eq(ps[0].0, p));
        if i < ps.len() {
            assert(d[i - 1] == ps[i]);
        }
    }
}

proof fn lemma_first_match_bounds(ps: Seq<(Seq<char>, bool)>, p: Seq<char>)
    ensures
        first_match(ps, p) matches Some(i) ==> 0 <= i < ps.len(),
    decreases ps.len(),
{
    if ps.len() > 0 {
        lemma_first_match_bounds(ps.drop_first(), p);
    }
}

/// The watched paths of a watcher, while it runs.
pub struct FileMonitor {
    started: bool,
    watched: Vec<(String, bool)>,
}

impl FileMonitor {
    /// Whether the watcher runs.
    pub closed spec fn running(&self) -> bool {
        self.started
    }

    /// The watched paths, each with whether it is watched recursively.
    pub closed spec fn watched(&self) -> Seq<(Seq<char>, bool)> {
        self.watched@.map_values(|e: (String, bool)| (e.0@, e.1))
    }

    /// A stopped watcher watching nothing.
    pub fn new() -> (r: Self)
        ensures
            !r.running(),
            r.watched().len() == 0,
    {
        let r = FileMonitor { started: false, watched: Vec::new() };
        assert(r.watched() =~= Seq::<(Seq<char>, bool)>::empty());
        r
    }

    /// Records that the watcher runs.
    pub fn start(&mut self)
        ensures
            final(self).running(),
            final(self).watched() == old(self).watched(),
    {
        self.started = true;
    }

    /// Whether the watcher runs.
    pub fn is_started(&self) -> (r: bool)
        ensures
            r == self.running(),
    {
        self.started
    }

    fn find(&self, path: &str) -> (r: Option<usize>)
        ensures
            match r {
                Some(i) => first_match(self.watched(), path@) == Some(i as int),
                None => first_match(self.watched(), path@) is None,
            },
    {
        let mut i: usize = 0;
        while i < self.watched.len()
            invariant
                i <= self.watched@.len(),
                forall|j: int| 0 <= j < i ==> !path_eq(#[trigger] self.watched()[j].0, path@),
            decreases self.watched@.len() - i,
        {
            if paths::same_path(self.watched[i].0.as_str(), path) {
                proof {
                    lemma_first_match(self.watched(), path@, i as int);
                }
                return Some(i);
            }
            i = i + 1;
        }
        proof {
            lemma_first_match(self.watched(), path@, i as int);
        }
        None
    }

    /// Records that a path is watched (while the watcher runs); true when
    /// it was recorded.
    pub fn watch_path(&mut self, path: &str, recursive: bool) -> (r: bool)
        ensures
            r == old(self).running(),
            final(self).running() == old(self).running(),
            final(self).watched() == (if r {
                with_watch(old(self).watched(), path@, recursive)
            } else {
                old(self).watched()
            }),
    {
        if !self.started {
            return false;
        }
        let ghost w = self.watched();
        proof {
            lemma_first_match_bounds(w, path@);
        }
        match self.find(path) {
            Some(i) => {
                let (p, _) = self.watched.remove(i);
                self.watched.insert(i, (p, recursive));
                assert(self.watched() =~= w.update(i as int, (w[i as int].0, recursive)));
            },
            None => {
                self.watched.push((String::from_str(path), recursive));
                assert(self.watched() =~= w.push((path@, recursive)));
            },
        }
        true
    }

    /// Records that a path is no longer watched (while the watcher runs);
    /// true when the watcher runs.
    pub fn unwatch_path(&mut self, path: &str) -> (r: bool)
        ensures
            r == old(self).running(),
            final(self).running() == old(self).running(),
            final(self).watched() == (if r { without_watch(old(self).watched(), path@) } else { old(self).watched() }),
    {
        if !self.started {
            return false;
        }
        let ghost w = self.watched();
        proof {
            lemma_first_match_bounds(w, path@);
        }
        match self.find(path) {
            Some(i) => {
                let _ = self.watched.remove(i);
                assert(self.watched() =~= w.remove(i as int));
            },
            None => {},
        }
        true
    }

    /// Whether a path is watched.
    pub fn is_watching(&self, path: &str) -> (r: bool)
        ensures
            r == first_match(self.watched(), path@) is Some,
    {
        self.find(path).is_some()
    }

    /// The watched paths.
    pub fn get_watched_paths(&self) -> (r: Vec<String>)
        ensures
            crate::cache::strings_view(r@) == self.watched().map_values(|e: (Seq<char>, bool)| e.0),
    {
        let mut r: Vec<String> = Vec::new();
        let mut i: usize = 0;
        while i < self.watched.len()
            invariant
                i <= self.watched@.len(),
                crate::cache::strings_view(r@) == self.watched().take(i as int).map_values(
                    |e: (Seq<char>, bool)| e.0,
                ),
            decreases self.watched@.len() - i,
        {
            let p = self.watched[i].0.clone();
            let ghost before = crate::cache::strings_view(r@);
            let ghost v = p@;
            r.push(p);
            assert(crate::cache::strings_view(r@) =~= before.push(v));
            i = i + 1;
            assert(crate::cache::strings_view(r@) =~= self.watched().take(i as int).map_values(
                |e: (Seq<char>, bool)| e.0,
            ));
        }
        assert(self.watched().take(i as int) =~= self.watched());
        r
    }

    /// Stops the watcher; nothing is watched any more.
    pub fn stop(&mut self)
        ensures
            !final(self).running(),
            final(self).watched().len() == 0,
    {
        self.started = false;
        self.watched = Vec::new();
        assert(self.watched() =~= Seq::<(Seq<char>, bool)>::empty());
    }
}

/// A watcher with its running flag.
pub struct FileMonitorManager {
    monitor: FileMonitor,
    is_running: bool,
}

impl FileMonitorManager {
    /// The watcher.
    pub closed spec fn monitor(&self) -> FileMonitor {
        self.monitor
    }

    /// Whether events are being processed.
    pub closed spec fn running(&self) -> bool {
        self.is_running
    }

    /// A stopped manager watching nothing.
    pub fn new() -> (r: Self)
        ensures
            !r.running(),
            !r.monitor().running(),
            r.monitor().watched().len() == 0,
    {
        FileMonitorManager { monitor: FileMonitor::new(), is_running: false }
    }

    /// Starts the watcher and the processing of its events.
    pub fn start(&mut self)
        ensures
            final(self).running(),
            final(self).monitor().running(),
            final(self).monitor().watched() == old(self).monitor().watched(),
    {
        self.monitor.start();
        self.is_running = true;
    }

    /// Stops the processing and the watcher.
    pub fn stop(&mut self)
        ensures
            !final(self).running(),
            !final(self).monitor().running(),
            final(self).monitor().watched().len() == 0,
    {
        self.is_running = false;
        self.monitor.stop();
    }

    /// Records that a directory is watched.
    pub fn watch_directory(&mut self, path: &str, recursive: bool) -> (r: bool)
        ensures
            r == old(self).monitor().running(),
            final(self).running() == old(self).running(),
            final(self).monitor().running() == old(self).monitor().running(),
            final(self).monitor().watched() == (if r {
                with_watch(old(self).monitor().watched(), path@, recursive)
            } else {
                old(self).monitor().watched()
            }),
    {
        self.monitor.watch_path(path, recursive)
    }

    /// Records that a directory is no longer watched.
    pub fn unwatch_directory(&mut self, path: &str) -> (r: bool)
        ensures
            r == old(self).monitor().running(),
            final(self).running() == old(self).running(),
            final(self).monitor().running() == old(self).monitor().running(),
            final(self).monitor().watched() == (if r {
                without_watch(old(self).monitor().watched(), path@)
            } else {
                old(self).monitor().watched()
            }),
    {
        self.monitor.unwatch_path(path)
    }

    /// Whether a directory is watched.
    pub fn is_watching(&self, path: &str) -> (r: bool)
        ensures
            r == first_match(self.monitor().watched(), path@) is Some,
    {
        self.monitor.is_watching(path)
    }

    /// The watched directories.
    pub fn get_watched_directories(&self) -> (r: Vec<String>)
        ensures
            crate::cache::strings_view(r@) == self.monitor().watched().map_values(|e: (Seq<char>, bool)| e.0),
    {
        self.monitor.get_watched_paths()
    }
}

/// Whether the watched path at `i` equals `p`.
pub open spec fn matches_at(ps: Seq<(Seq<char>, bool)>, i: int, p: Seq<char>) -> bool {
    path_eq(ps[i].0, p)
}

/// Whether at most one watched path equals `p`.
pub open spec fn at_most_one_match(ps: Seq<(Seq<char>, bool)>, p: Seq<char>) -> bool {
    forall|i: int, j: int|
        0 <= i < j < ps.len() ==> !(#[trigger] matches_at(ps, i, p) && #[trigger] matches_at(ps, j, p))
}

/// A path is watched right after it was recorded as watched, and no longer
/// after it was recorded as unwatched, when at most one watched path equals
/// it (for a path that compares equal to itself, as every path does).
pub proof fn law_watch_then_watching(ps: Seq<(Seq<char>, bool)>, p: Seq<char>, recursive: bool)
    requires
        path_eq(p, p),
    ensures
        first_match(with_watch(ps, p, recursive), p) is Some,
        at_most_one_match(ps, p) ==> first_match(without_watch(ps, p), p) is None,
    decreases ps.len(),
{
    lemma_first_match_bounds(ps, p);
    let w = with_watch(ps, p, recursive);
    match first_match(ps, p) {
        Some(i) => {
            lemma_first_match_prefix(ps, p, i);
            assert forall|j: int| 0 <= j < i implies !path_eq(#[trigger] w[j].0, p) by {
                assert(w[j] == ps[j]);
            }
            lemma_first_match(w, p, i);
            let v = without_watch(ps, p);
            if at_most_one_match(ps, p) {
                assert forall|j: int| 0 <= j < v.len() implies !path_eq(#[trigger] v[j].0, p) by {
                    if j < i {
                        assert(v[j] == ps[j]);
                    } else {
                        assert(v[j] == ps[j + 1]);
                        assert(matches_at(ps, i, p));
                        if matches_at(ps, j + 1, p) {
                            assert(!(matches_at(ps, i, p) && matches_at(ps, j + 1, p)));
                        }
                    }
                }
                lemma_first_match(v, p, v.len() as int);
            }
        },
        None => {
            lemma_first_match_none(ps, p);
            assert forall|j: int| 0 <= j < ps.len() implies !path_eq(#[trigger] w[j].0, p) by {
                assert(w[j] == ps[j]);
            }
            lemma_first_match(w, p, ps.len() as int);
            lemma_first_match(ps, p, ps.len() as int);
        },
    }
}

proof fn lemma_first_match_prefix(ps: Seq<(Seq<char>, bool)>, p: Seq<char>, i: int)
    requires
        first_match(ps, p) == Some(i),
    ensures
        0 <= i < ps.len(),
        path_eq(ps[i].0, p),
        forall|j: int| 0 <= j < i ==> !path_eq(#[trigger] ps[j].0, p),
    decreases ps.len(),
{
    if ps.len() > 0 && !path_eq(ps[0].0, p) {
        let d = ps.drop_first();
        lemma_first_match_prefix(d, p, i - 1);
        assert forall|j: int| 0 <= j < i implies !path_eq(#[trigger] ps[j].0, p) by {
            if j > 0 {
                assert(ps[j] == d[j - 1]);
            }
        }
        assert(ps[i] == d[i - 1]);
    }
}

proof fn lemma_first_match_none(ps: Seq<(Seq<char>, bool)>, p: Seq<char>)
    requires
        first_match(ps, p) is None,
    ensures
        forall|j: int| 0 <= j < ps.len() ==> !path_eq(#[trigger] ps[j].0, p),
    decreases ps.len(),
{
    if ps.len() > 0 {
        let d = ps.drop_first();
        lemma_first_match_none(d, p);
        assert forall|j: int| 0 <= j < ps.len() implies !path_eq(#[trigger] ps[j].0, p) by {
            if j > 0 {
                assert(ps[j] == d[j - 1]);
            }
        }
    }
}

} // verus!
