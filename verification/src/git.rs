//! Git status of a directory: what the `git` command line reports, parsed.

use vstd::prelude::*;
use crate::text;
use crate::commands;
use crate::remote;

verus! {

/// Git status shown for a panel's directory.
#[derive(Debug)]
pub struct GitInfo {
    pub branch: String,
    pub is_dirty: bool,
    pub ahead: usize,
    pub behind: usize,
}

impl Clone for GitInfo {
    fn clone(&self) -> (r: Self)
        ensures
            r == *self,
    {
        GitInfo { branch: self.branch.clone(), is_dirty: self.is_dirty, ahead: self.ahead, behind: self.behind }
    }
}

/// `s` without leading white space.
pub open spec fn trim_start(s: Seq<char>) -> Seq<char>
    decreases s.len(),
{
    if s.len() > 0 && commands::is_space(s[0]) {
        trim_start(s.drop_first())
    } else {
        s
    }
}

/// `s` without trailing white space.
pub open spec fn trim_end(s: Seq<char>) -> Seq<char>
    decreases s.len(),
{
    if s.len() > 0 && commands::is_space(s.last()) {
        trim_end(s.drop_last())
    } else {
        s
    }
}

/// `s` without leading and trailing white space, as `str::trim` gives it.
pub open spec fn trimmed(s: Seq<char>) -> Seq<char> {
    trim_end(trim_start(s))
}

/// Removes leading and trailing white space.
pub fn trim(s: &str) -> (r: String)
    ensures
        r@ == trimmed(s@),
{
    let cs = text::chars_of(s);
    let mut a: usize = 0;
    assert(cs@.subrange(0, cs@.len() as int) =~= cs@);
    while a < cs.len() && commands::space_char(cs[a])
        invariant
            cs@ == s@,
            a <= cs@.len(),
            trim_start(cs@.subrange(a as int, cs@.len() as int)) == trim_start(s@),
        decreases cs@.len() - a,
    {
        assert(cs@.subrange(a as int, cs@.len() as int).drop_first() =~= cs@.subrange(a + 1, cs@.len() as int));
        a = a + 1;
    }
    let ghost front = cs@.subrange(a as int, cs@.len() as int);
    assert(trim_start(s@) == front);
    let mut b: usize = cs.len();
    assert(front.subrange(0, front.len() as int) =~= front);
    while b > a && commands::space_char(cs[b - 1])
        invariant
            cs@ == s@,
            a <= b <= cs@.len(),
            front == cs@.subrange(a as int, cs@.len() as int),
            trim_end(cs@.subrange(a as int, b as int)) == trim_end(front),
        decreases b - a,
    {
        assert(cs@.subrange(a as int, b as int).drop_last() =~= cs@.subrange(a as int, b - 1));
        b = b - 1;
    }
    let part = vstd::slice::slice_subrange(cs.as_slice(), a, b);
    assert(trim_end(cs@.subrange(a as int, b as int)) == cs@.subrange(a as int, b as int));
    text::string_from_chars(part)
}

/// The branch `git branch --show-current` reports: its trimmed output, unless
/// empty.
pub fn current_branch_name(stdout: &str) -> (r: Option<String>)
    ensures
        trimmed(stdout@).len() > 0 ==> (r matches Some(b) && b@ == trimmed(stdout@)),
        trimmed(stdout@).len() == 0 ==> r is None,
{
    let t = trim(stdout);
    if t.as_str().unicode_len() > 0 {
        Some(t)
    } else {
        None
    }
}

/// The branch `git rev-parse --abbrev-ref HEAD` reports: its trimmed output,
/// unless it is `HEAD` (a detached head).
pub fn abbrev_ref_name(stdout: &str) -> (r: Option<String>)
    ensures
        trimmed(stdout@) != "HEAD"@ ==> (r matches Some(b) && b@ == trimmed(stdout@)),
        trimmed(stdout@) == "HEAD"@ ==> r is None,
{
    let t = trim(stdout);
    if text::str_eq(t.as_str(), "HEAD") {
        None
    } else {
        Some(t)
    }
}

/// The label of a detached head: `(detached: ` and the first seven
/// characters of the commit `git rev-parse --short HEAD` reports.
pub fn detached_label(stdout: &str) -> (r: Option<String>)
    ensures
        trimmed(stdout@).len() > 0 ==> (r matches Some(b) && b@ == "(detached: "@ + trimmed(stdout@).take(
            if trimmed(stdout@).len() < 7 { trimmed(stdout@).len() as int } else { 7 },
        ) + ")"@),
        trimmed(stdout@).len() == 0 ==> r is None,
{
    let t = trim(stdout);
    let cs = text::chars_of(t.as_str());
    if cs.len() == 0 {
        return None;
    }
    let n = if cs.len() < 7 { cs.len() } else { 7 };
    let head = vstd::slice::slice_subrange(cs.as_slice(), 0, n);
    let mut label = String::from_str("(detached: ");
    label.append(text::string_from_chars(head).as_str());
    label.append(")");
    Some(label)
}

/// A count as `usize::from_str` reads it, 0 where it cannot.
pub open spec fn count_or_zero(s: Seq<char>) -> usize {
    match remote::parse_u64(s) {
        Some(n) => if n <= usize::MAX {
            n as usize
        } else {
            0
        },
        None => 0,
    }
}

/// The position of the first tab, if any.
pub open spec fn tab_positions(s: Seq<char>) -> Seq<int>
    decreases s.len(),
{
    if s.len() == 0 {
        Seq::empty()
    } else {
        let rest = tab_positions(s.drop_last());
        if s.last() == '\t' {
            rest.push(s.len() - 1)
        } else {
            rest
        }
    }
}

/// The commits ahead and behind `git rev-list --left-right --count` reports:
/// two tab-separated counts once trimmed (0 for one that does not read),
/// else none.
pub open spec fn ahead_behind(stdout: Seq<char>) -> (usize, usize) {
    let t = trimmed(stdout);
    let tabs = tab_positions(t);
    if tabs.len() == 1 {
        (count_or_zero(t.subrange(0, tabs[0])), count_or_zero(t.subrange(tabs[0] + 1, t.len() as int)))
    } else {
        (0, 0)
    }
}

fn count_of(s: &[char]) -> (r: usize)
    ensures
        r == count_or_zero(s@),
{
    let st = text::string_from_chars(s);
    match remote::parse_number(st.as_str()) {
        Some(n) => if n <= usize::MAX as u64 {
            n as usize
        } else {
            0
        },
        None => 0,
    }
}

/// Reads the ahead and behind counts.
pub fn parse_ahead_behind(stdout: &str) -> (r: (usize, usize))
    ensures
        r == ahead_behind(stdout@),
{
    let t = trim(stdout);
    let cs = text::chars_of(t.as_str());
    let mut tabs: Vec<usize> = Vec::new();
    let mut i: usize = 0;
    assert(cs@.take(0) =~= Seq::<char>::empty());
    while i < cs.len()
        invariant
            cs@ == t@,
            i <= cs@.len(),
            tabs@.map_values(|p: usize| p as int) == tab_positions(cs@.take(i as int)),
            forall|k: int| 0 <= k < tabs@.len() ==> tabs@[k] < i,
        decreases cs@.len() - i,
    {
        assert(cs@.take(i + 1).drop_last() =~= cs@.take(i as int));
        if cs[i] == '\t' {
            tabs.push(i);
        }
        assert(tabs@.map_values(|p: usize| p as int) =~= tab_positions(cs@.take(i + 1)));
        i = i + 1;
    }
    assert(cs@.take(cs@.len() as int) =~= cs@);
    if tabs.len() == 1 {
        let p = tabs[0];
        assert(p as int == tab_positions(cs@)[0]);
        let a = count_of(vstd::slice::slice_subrange(cs.as_slice(), 0, p));
        let b = count_of(vstd::slice::slice_subrange(cs.as_slice(), p + 1, cs.len()));
        (a, b)
    } else {
        (0, 0)
    }
}

/// The Git status of a directory from its parts: nothing where no branch
/// was found.
pub fn get_git_info(branch: Option<String>, is_dirty: bool, counts: (usize, usize)) -> (r: Option<GitInfo>)
    ensures
        branch is None ==> r is None,
        branch matches Some(b) ==> (r matches Some(g) && g.branch == b && g.is_dirty == is_dirty && g.ahead
            == counts.0 && g.behind == counts.1),
{
    match branch {
        Some(b) => Some(GitInfo { branch: b, is_dirty, ahead: counts.0, behind: counts.1 }),
        None => None,
    }
}

/// The steps of finding the Git status of a directory: whether it is in a
/// repository, its branch (by three commands in turn), whether it has
/// changes, and how far it is ahead of and behind its upstream.
#[derive(Debug, Clone, Copy, PartialEq, Eq, Structural)]
pub enum GitStage {
    Repository,
    ShowCurrent,
    AbbrevRef,
    ShortHead,
    Status,
    AheadBehind,
    Finished,
}

/// What running a `git` command gave: whether it could be started at all,
/// whether it succeeded, and what it printed.
#[derive(Debug)]
pub struct GitOutput {
    pub ran: bool,
    pub success: bool,
    pub stdout: String,
}

/// What to do next: run `git` with these arguments in the directory, or
/// take the status found (nothing outside a repository or without a branch).
#[derive(Debug)]
pub enum GitStep {
    Run(Vec<String>),
    Done(Option<GitInfo>),
}

/// The arguments of the command of a step.
pub open spec fn stage_args(stage: GitStage) -> Seq<Seq<char>> {
    match stage {
        GitStage::Repository => seq!["rev-parse"@, "--git-dir"@],
        GitStage::ShowCurrent => seq!["branch"@, "--show-current"@],
        GitStage::AbbrevRef => seq!["rev-parse"@, "--abbrev-ref"@, "HEAD"@],
        GitStage::ShortHead => seq!["rev-parse"@, "--short"@, "HEAD"@],
        GitStage::Status => seq!["status"@, "--porcelain"@],
        GitStage::AheadBehind => seq!["rev-list"@, "--left-right"@, "--count"@, "HEAD...@{upstream}"@],
        GitStage::Finished => Seq::empty(),
    }
}

/// Whether a command ran and succeeded.
pub open spec fn succeeded(out: GitOutput) -> bool {
    out.ran && out.success
}

/// The branch a branch command found, if it found one.
pub open spec fn branch_found(stage: GitStage, out: GitOutput) -> Option<Seq<char>> {
    let t = trimmed(out.stdout@);
    if !succeeded(out) {
        None
    } else {
        match stage {
            GitStage::ShowCurrent => if t.len() > 0 { Some(t) } else { None },
            GitStage::AbbrevRef => if t != "HEAD"@ { Some(t) } else { None },
            GitStage::ShortHead => if t.len() > 0 {
                Some("(detached: "@ + t.take(if t.len() < 7 { t.len() as int } else { 7 }) + ")"@)
            } else {
                None
            },
            _ => None,
        }
    }
}

/// The branch command tried after one that found nothing.
pub open spec fn next_branch_stage(stage: GitStage) -> GitStage {
    match stage {
        GitStage::ShowCurrent => GitStage::AbbrevRef,
        GitStage::AbbrevRef => GitStage::ShortHead,
        _ => GitStage::Finished,
    }
}

/// Whether a step asks to run the command of `stage`.
pub open spec fn runs(r: GitStep, stage: GitStage) -> bool {
    r matches GitStep::Run(a) && crate::cache::strings_view(a@) == stage_args(stage)
}

/// The progress of finding the Git status of a directory.
pub struct GitProbe {
    stage: GitStage,
    branch: Option<String>,
    dirty: bool,
}

fn args_of(stage: GitStage) -> (r: Vec<String>)
    ensures
        crate::cache::strings_view(r@) == stage_args(stage),
{
    let mut v: Vec<String> = Vec::new();
    match stage {
        GitStage::Repository => {
            v.push(String::from_str("rev-parse"));
            v.push(String::from_str("--git-dir"));
        },
        GitStage::ShowCurrent => {
            v.push(String::from_str("branch"));
            v.push(String::from_str("--show-current"));
        },
        GitStage::AbbrevRef => {
            v.push(String::from_str("rev-parse"));
            v.push(String::from_str("--abbrev-ref"));
            v.push(String::from_str("HEAD"));
        },
        GitStage::ShortHead => {
            v.push(String::from_str("rev-parse"));
            v.push(String::from_str("--short"));
            v.push(String::from_str("HEAD"));
        },
        GitStage::Status => {
            v.push(String::from_str("status"));
            v.push(String::from_str("--porcelain"));
        },
        GitStage::AheadBehind => {
            v.push(String::from_str("rev-list"));
            v.push(String::from_str("--left-right"));
            v.push(String::from_str("--count"));
            v.push(String::from_str("HEAD...@{upstream}"));
        },
        GitStage::Finished => {},
    }
    assert(crate::cache::strings_view(v@) =~= stage_args(stage));
    v
}

impl GitProbe {
    /// The step reached.
    pub closed spec fn stage(&self) -> GitStage {
        self.stage
    }

    /// The branch found so far.
    pub closed spec fn branch(&self) -> Option<Seq<char>> {
        match self.branch {
            Some(b) => Some(b@),
            None => None,
        }
    }

    /// Whether changes were found.
    pub closed spec fn dirty(&self) -> bool {
        self.dirty
    }

    /// A branch is known once the changes are being looked for.
    pub closed spec fn wf(&self) -> bool {
        (self.stage == GitStage::Status || self.stage == GitStage::AheadBehind) ==> self.branch is Some
    }

    /// The start: first ask whether the directory is in a repository.
    pub fn start() -> (r: (GitProbe, GitStep))
        ensures
            r.0.wf(),
            r.0.stage() == GitStage::Repository,
            runs(r.1, GitStage::Repository),
    {
        (GitProbe { stage: GitStage::Repository, branch: None, dirty: false }, GitStep::Run(args_of(GitStage::Repository)))
    }

    /// Takes the output of the command last asked for and says what to do
    /// next. Outside a repository, or where a branch command cannot be
    /// started, or where no command finds a branch, there is no status. A
    /// branch command that fails or finds nothing passes to the next one.
    /// Changes are found where `git status --porcelain` succeeds and prints
    /// anything; the counts are those `rev-list` prints, or 0 where it
    /// fails.
    pub fn step(&mut self, out: GitOutput) -> (r: GitStep)
        requires
            old(self).wf(),
            old(self).stage() != GitStage::Finished,
        ensures
            final(self).wf(),
            match old(self).stage() {
                GitStage::Repository => if succeeded(out) {
                    final(self).stage() == GitStage::ShowCurrent && runs(r, GitStage::ShowCurrent)
                } else {
                    final(self).stage() == GitStage::Finished && r matches GitStep::Done(None)
                },
                GitStage::ShowCurrent | GitStage::AbbrevRef | GitStage::ShortHead => if !out.ran {
                    final(self).stage() == GitStage::Finished && r matches GitStep::Done(None)
                } else {
                    match branch_found(old(self).stage(), out) {
                        Some(b) => final(self).stage() == GitStage::Status && final(self).branch() == Some(b)
                            && runs(r, GitStage::Status),
                        None => if old(self).stage() == GitStage::ShortHead {
                            final(self).stage() == GitStage::Finished && r matches GitStep::Done(None)
                        } else {
                            final(self).stage() == next_branch_stage(old(self).stage()) && runs(
                                r,
                                next_branch_stage(old(self).stage()),
                            )
                        },
                    }
                },
                GitStage::Status => {
                    &&& final(self).stage() == GitStage::AheadBehind
                    &&& final(self).branch() == old(self).branch()
                    &&& final(self).dirty() == (succeeded(out) && out.stdout@.len() > 0)
                    &&& runs(r, GitStage::AheadBehind)
                },
                _ => {
                    let counts = if succeeded(out) { ahead_behind(out.stdout@) } else { (0usize, 0usize) };
                    &&& final(self).stage() == GitStage::Finished
                    &&& r matches GitStep::Done(Some(g)) && old(self).branch() == Some(g.branch@) && g.is_dirty
                        == old(self).dirty() && g.ahead == counts.0 && g.behind == counts.1
                },
            },
    {
        let ok = out.ran && out.success;
        match self.stage {
            GitStage::Repository => {
                if ok {
                    self.stage = GitStage::ShowCurrent;
                    GitStep::Run(args_of(GitStage::ShowCurrent))
                } else {
                    self.stage = GitStage::Finished;
                    GitStep::Done(None)
                }
            },
            GitStage::ShowCurrent | GitStage::AbbrevRef | GitStage::ShortHead => {
                if !out.ran {
                    self.stage = GitStage::Finished;
                    return GitStep::Done(None);
                }
                let found = if !ok {
                    None
                } else {
                    match self.stage {
                        GitStage::ShowCurrent => current_branch_name(out.stdout.as_str()),
                        GitStage::AbbrevRef => abbrev_ref_name(out.stdout.as_str()),
                        _ => detached_label(out.stdout.as_str()),
                    }
                };
                match found {
                    Some(b) => {
                        self.branch = Some(b);
                        self.stage = GitStage::Status;
                        GitStep::Run(args_of(GitStage::Status))
                    },
                    None => {
                        let next = match self.stage {
                            GitStage::ShowCurrent => GitStage::AbbrevRef,
                            GitStage::AbbrevRef => GitStage::ShortHead,
                            _ => GitStage::Finished,
                        };
                        self.stage = next;
                        if next == GitStage::Finished {
                            GitStep::Done(None)
                        } else {
                            GitStep::Run(args_of(next))
                        }
                    },
                }
            },
            GitStage::Status => {
                self.dirty = ok && out.stdout.as_str().unicode_len() > 0;
                self.stage = GitStage::AheadBehind;
                GitStep::Run(args_of(GitStage::AheadBehind))
            },
            _ => {
                let counts = if ok { parse_ahead_behind(out.stdout.as_str()) } else { (0, 0) };
                self.stage = GitStage::Finished;
                let branch = self.branch.clone();
                GitStep::Done(get_git_info(branch, self.dirty, counts))
            },
        }
    }
}

} // verus!
