//! Command-line input: telling shell, special and plugin commands apart,
//! expanding the `%` variables of a command, answering the built-in commands
//! and resolving the target of `cd`.

use vstd::prelude::*;
use crate::text;
use crate::paths;
use crate::state::{AppState, PanelState};

verus! {

/// The kind of a command line.
#[derive(Debug)]
pub enum CommandType {
    /// A command for the shell.
    Shell(String),
    /// A `/` command of the application, without the `/`.
    Special(String),
    /// A `:` command of a plugin, without the `:`.
    Plugin(String),
}

/// Tells apart special (`/`), plugin (`:`) and shell commands.
pub fn parse_command(command: &str) -> (r: CommandType)
    ensures
        command@.len() > 0 && command@[0] == '/' ==> (r matches CommandType::Special(s) && s@
            == command@.drop_first()),
        command@.len() > 0 && command@[0] == ':' ==> (r matches CommandType::Plugin(s) && s@
            == command@.drop_first()),
        !(command@.len() > 0 && (command@[0] == '/' || command@[0] == ':')) ==> (r matches CommandType::Shell(
            s,
        ) && s@ == command@),
{
    let cs = text::chars_of(command);
    if cs.len() > 0 && (cs[0] == '/' || cs[0] == ':') {
        let tail = vstd::slice::slice_subrange(cs.as_slice(), 1, cs.len());
        assert(tail@ =~= command@.drop_first());
        let rest = text::string_from_chars(tail);
        if cs[0] == '/' {
            CommandType::Special(rest)
        } else {
            CommandType::Plugin(rest)
        }
    } else {
        CommandType::Shell(command.to_string())
    }
}

/// `s` with every occurrence of `pat` replaced by `rep`, scanning from the
/// left and not overlapping, as `str::replace` does.
pub open spec fn replace_all(s: Seq<char>, pat: Seq<char>, rep: Seq<char>) -> Seq<char>
    decreases s.len(),
{
    if pat.len() == 0 || s.len() < pat.len() {
        s
    } else if text::occurs_at(s, pat, 0) {
        rep + replace_all(s.subrange(pat.len() as int, s.len() as int), pat, rep)
    } else {
        seq![s[0]] + replace_all(s.drop_first(), pat, rep)
    }
}

/// Replaces every occurrence of `pat` in `s` by `rep`.
pub(crate) fn replace_text(s: &str, pat: &str, rep: &str) -> (r: String)
    requires
        pat@.len() > 0,
    ensures
        r@ == replace_all(s@, pat@, rep@),
{
    let cs = text::chars_of(s);
    let ps = text::chars_of(pat);
    let mut r = String::new();
    let mut i: usize = 0;
    assert(cs@.subrange(0, cs@.len() as int) =~= cs@);
    assert(r@ + replace_all(cs@, ps@, rep@) =~= replace_all(cs@, ps@, rep@));
    while i < cs.len()
        invariant
            cs@ == s@,
            ps@ == pat@,
            ps@.len() > 0,
            i <= cs@.len(),
            r@ + replace_all(cs@.subrange(i as int, cs@.len() as int), ps@, rep@) == replace_all(
                cs@,
                ps@,
                rep@,
            ),
        decreases cs@.len() - i,
    {
        let ghost rest = cs@.subrange(i as int, cs@.len() as int);
        if text::occurs_at_exec(cs.as_slice(), ps.as_slice(), i) {
            assert(rest.subrange(0, ps@.len() as int) =~= cs@.subrange(i as int, i + ps@.len()));
            assert(rest.subrange(ps@.len() as int, rest.len() as int) =~= cs@.subrange(
                i + ps@.len(),
                cs@.len() as int,
            ));
            let ghost before = r@;
            r.append(rep);
            assert(r@ == before + rep@);
            assert(before + replace_all(rest, ps@, rep@) == before + (rep@ + replace_all(
                cs@.subrange(i + ps@.len(), cs@.len() as int),
                ps@,
                rep@,
            )));
            assert(before + (rep@ + replace_all(cs@.subrange(i + ps@.len(), cs@.len() as int), ps@, rep@))
                =~= r@ + replace_all(cs@.subrange(i + ps@.len(), cs@.len() as int), ps@, rep@));
            i = i + ps.len();
        } else {
            proof {
                if rest.len() >= ps@.len() {
                    assert(!text::occurs_at(rest, ps@, 0)) by {
                        if text::occurs_at(rest, ps@, 0) {
                            assert(rest.subrange(0, ps@.len() as int) =~= cs@.subrange(i as int, i + ps@.len()));
                        }
                    }
                }
            }
            assert(rest.drop_first() =~= cs@.subrange(i + 1, cs@.len() as int));
            let ghost before = r@;
            text::push_char(&mut r, cs[i]);
            assert(before + (seq![cs@[i as int]] + replace_all(rest.drop_first(), ps@, rep@)) =~= r@
                + replace_all(rest.drop_first(), ps@, rep@));
            proof {
                if rest.len() < ps@.len() {
                    assert(replace_all(rest, ps@, rep@) == rest);
                    assert(replace_all(rest.drop_first(), ps@, rep@) == rest.drop_first());
                    assert(rest =~= seq![cs@[i as int]] + rest.drop_first());
                }
            }
            i = i + 1;
        }
    }
    assert(cs@.subrange(i as int, cs@.len() as int) =~= Seq::<char>::empty());
    r
}

/// Items joined with single spaces.
pub open spec fn join_spaced(s: Seq<Seq<char>>) -> Seq<char>
    decreases s.len(),
{
    if s.len() == 0 {
        Seq::empty()
    } else if s.len() == 1 {
        s[0]
    } else {
        join_spaced(s.drop_last()) + seq![' '] + s.last()
    }
}

/// The file names of paths that have one, in order.
pub open spec fn file_names(ps: Seq<Seq<char>>) -> Seq<Seq<char>>
    decreases ps.len(),
{
    if ps.len() == 0 {
        Seq::empty()
    } else {
        match paths::path_file_name(ps.last()) {
            Some(n) => file_names(ps.drop_last()).push(n),
            None => file_names(ps.drop_last()),
        }
    }
}

/// A path in double quotes.
pub open spec fn quoted(p: Seq<char>) -> Seq<char> {
    seq!['"'] + p + seq!['"']
}

/// The name of the entry under a panel's cursor, or nothing.
pub open spec fn current_name(p: PanelState) -> Seq<char> {
    match p.current_entry_spec() {
        Some(e) => e.name@,
        None => Seq::empty(),
    }
}

/// The path of the entry under a panel's cursor, or nothing.
pub open spec fn current_path(p: PanelState) -> Seq<char> {
    match p.current_entry_spec() {
        Some(e) => e.path@,
        None => Seq::empty(),
    }
}

/// `%F`: the names of the marked files, or else the entry under the cursor
/// (unless it is `..`).
pub open spec fn marked_names_text(p: PanelState) -> Seq<char> {
    if p.marks().len() > 0 {
        join_spaced(file_names(p.marks()))
    } else if current_name(p).len() > 0 && current_name(p) != seq!['.', '.'] {
        current_name(p)
    } else {
        Seq::empty()
    }
}

/// `%P`: the quoted paths of the marked files, or else of the entry under the
/// cursor (unless it is `..`).
pub open spec fn marked_paths_text(p: PanelState) -> Seq<char> {
    if p.marks().len() > 0 {
        join_spaced(p.marks().map_values(|m: Seq<char>| quoted(m)))
    } else if current_path(p).len() > 0 && current_name(p) != seq!['.', '.'] {
        quoted(current_path(p))
    } else {
        Seq::empty()
    }
}

/// A command with its variables replaced in turn: `%f` (current file name),
/// `%F` (marked names), `%d` (current directory), `%D` (the other panel's
/// directory), `%p` (current file path), `%P` (marked paths).
pub open spec fn expansion(command: Seq<char>, active: PanelState, inactive: PanelState) -> Seq<char> {
    let s1 = replace_all(command, "%f"@, current_name(active));
    let s2 = replace_all(s1, "%F"@, marked_names_text(active));
    let s3 = replace_all(s2, "%d"@, active.current_dir@);
    let s4 = replace_all(s3, "%D"@, inactive.current_dir@);
    let s5 = replace_all(s4, "%p"@, current_path(active));
    replace_all(s5, "%P"@, marked_paths_text(active))
}

/// Whether a character is white space (the Unicode `White_Space` property,
/// as `char::is_whitespace` tests it).
pub open spec fn is_space(c: char) -> bool {
    let n = c as u32;
    (0x09 <= n <= 0x0d) || n == 0x20 || n == 0x85 || n == 0xa0 || n == 0x1680 || (0x2000 <= n
        <= 0x200a) || n == 0x2028 || n == 0x2029 || n == 0x202f || n == 0x205f || n == 0x3000
}

/// The first word of a text: its first run of characters that are not white
/// space.
pub open spec fn first_word(s: Seq<char>) -> Seq<char>
    decreases s.len(),
{
    if s.len() == 0 {
        Seq::empty()
    } else if is_space(s[0]) {
        first_word(s.drop_first())
    } else {
        word_prefix(s)
    }
}

/// The characters of `s` up to its first white space.
pub open spec fn word_prefix(s: Seq<char>) -> Seq<char>
    decreases s.len(),
{
    if s.len() == 0 || is_space(s[0]) {
        Seq::empty()
    } else {
        seq![s[0]] + word_prefix(s.drop_first())
    }
}

/// The reply to a command line that is answered without running anything:
/// nothing to run for a blank line, the current directory for `pwd`, `exit`
/// for `exit` and `quit`, and the status texts of `/monitor`, `/watch`,
/// `/notifications` and `/config`; no reply for anything else, which runs.
pub open spec fn builtin_reply_of(expanded: Seq<char>, s: AppState) -> Option<Seq<char>> {
    let w = first_word(expanded);
    if w.len() == 0 {
        Some(Seq::empty())
    } else if w == "pwd"@ {
        Some(s.active().current_dir@)
    } else if w == "exit"@ || w == "quit"@ {
        Some("exit"@)
    } else if w == "/monitor"@ {
        if s.file_monitor_running && s.auto_reload_enabled {
            Some("File monitoring is currently ENABLED"@)
        } else {
            Some("File monitoring is currently DISABLED"@)
        }
    } else if w == "/watch"@ {
        Some("Watched directories: "@ + s.left_panel.current_dir@ + ", "@ + s.right_panel.current_dir@)
    } else if w == "/notifications"@ {
        Some("Notifications toggle command - handled by UI"@)
    } else if w == "/config"@ {
        Some("Opening configuration - handled by UI"@)
    } else {
        None
    }
}

pub(crate) fn space_char(c: char) -> (r: bool)
    ensures
        r == is_space(c),
{
    let n = c as u32;
    (0x09 <= n && n <= 0x0d) || n == 0x20 || n == 0x85 || n == 0xa0 || n == 0x1680 || (0x2000 <= n && n
        <= 0x200a) || n == 0x2028 || n == 0x2029 || n == 0x202f || n == 0x205f || n == 0x3000
}

/// The first word of a text.
fn first_word_of(s: &str) -> (r: Vec<char>)
    ensures
        r@ == first_word(s@),
{
    let cs = text::chars_of(s);
    let mut i: usize = 0;
    assert(cs@.subrange(0, cs@.len() as int) =~= cs@);
    while i < cs.len() && space_char(cs[i])
        invariant
            cs@ == s@,
            i <= cs@.len(),
            first_word(cs@.subrange(i as int, cs@.len() as int)) == first_word(s@),
        decreases cs@.len() - i,
    {
        assert(cs@.subrange(i as int, cs@.len() as int).drop_first() =~= cs@.subrange(i + 1, cs@.len() as int));
        i = i + 1;
    }
    let start = i;
    assert(first_word(cs@.subrange(start as int, cs@.len() as int)) == word_prefix(cs@.subrange(start as int, cs@.len() as int)));
    let mut w: Vec<char> = Vec::new();
    while i < cs.len() && !space_char(cs[i])
        invariant
            cs@ == s@,
            start <= i <= cs@.len(),
            w@ + word_prefix(cs@.subrange(i as int, cs@.len() as int)) == first_word(s@),
        decreases cs@.len() - i,
    {
        let ghost rest = cs@.subrange(i as int, cs@.len() as int);
        assert(rest.drop_first() =~= cs@.subrange(i + 1, cs@.len() as int));
        let ghost before = w@;
        w.push(cs[i]);
        assert(before + (seq![cs@[i as int]] + word_prefix(rest.drop_first())) =~= w@ + word_prefix(
            rest.drop_first(),
        ));
        i = i + 1;
    }
    assert(word_prefix(cs@.subrange(i as int, cs@.len() as int)) =~= Seq::<char>::empty());
    assert(w@ + Seq::<char>::empty() =~= w@);
    w
}

fn word_is(w: &Vec<char>, lit: &str) -> (r: bool)
    ensures
        r == (w@ == lit@),
{
    let s = text::string_from_chars(w.as_slice());
    text::str_eq(s.as_str(), lit)
}

/// Where `cd` goes: a path to use as it is, one to use only if it is an
/// existing directory, or nowhere.
#[derive(Debug)]
pub enum CdTarget {
    Direct(String),
    IfDirectory(String),
    Nowhere,
}

/// The commands of the command line.
pub struct CommandProcessor;

impl CommandProcessor {
    /// Replaces the `%` variables of a command with values from the panels.
    pub fn expand_command(command: &str, state: &AppState) -> (r: String)
        ensures
            r@ == expansion(command@, state.active(), state.inactive()),
    {
        let active_panel = state.active_panel();
        let inactive_panel = state.inactive_panel();
        let current = active_panel.current_entry();
        let current_file = match current {
            Some(e) => e.name.clone(),
            None => String::new(),
        };
        let current_path = match current {
            Some(e) => e.path.clone(),
            None => String::new(),
        };
        let is_parent = crate::state::is_dotdot(&current_file);
        assert(is_parent == (current_file@ == seq!['.', '.']));
        let marked_files = if active_panel.marked_files.len() > 0 {
            marked_names(&active_panel.marked_files)
        } else if current_file.as_str().unicode_len() > 0 && !is_parent {
            current_file.clone()
        } else {
            String::new()
        };
        let marked_paths = if active_panel.marked_files.len() > 0 {
            quoted_paths(&active_panel.marked_files)
        } else if current_path.as_str().unicode_len() > 0 && !is_parent {
            quote(current_path.as_str())
        } else {
            String::new()
        };
        proof {
            assert(active_panel.marks().len() == active_panel.marked_files@.len());
            reveal_strlit("%f");
            reveal_strlit("%F");
            reveal_strlit("%d");
            reveal_strlit("%D");
            reveal_strlit("%p");
            reveal_strlit("%P");
        }
        let s1 = replace_text(command, "%f", current_file.as_str());
        let s2 = replace_text(s1.as_str(), "%F", marked_files.as_str());
        let s3 = replace_text(s2.as_str(), "%d", active_panel.current_dir.as_str());
        let s4 = replace_text(s3.as_str(), "%D", inactive_panel.current_dir.as_str());
        let s5 = replace_text(s4.as_str(), "%p", current_path.as_str());
        replace_text(s5.as_str(), "%P", marked_paths.as_str())
    }

    /// The reply to a command line (after expansion) that needs nothing run.
    pub fn builtin_reply(expanded: &str, state: &AppState) -> (r: Option<String>)
        ensures
            r matches Some(t) ==> builtin_reply_of(expanded@, *state) == Some(t@),
            r is None ==> builtin_reply_of(expanded@, *state) is None,
    {
        let w = first_word_of(expanded);
        if w.len() == 0 {
            return Some(String::new());
        }
        if word_is(&w, "pwd") {
            return Some(state.active_panel().current_dir.clone());
        }
        if word_is(&w, "exit") || word_is(&w, "quit") {
            return Some(String::from_str("exit"));
        }
        if word_is(&w, "/monitor") {
            if state.is_file_monitoring_active() {
                return Some(String::from_str("File monitoring is currently ENABLED"));
            } else {
                return Some(String::from_str("File monitoring is currently DISABLED"));
            }
        }
        if word_is(&w, "/watch") {
            let mut t = String::from_str("Watched directories: ");
            t.append(state.left_panel.current_dir.as_str());
            t.append(", ");
            t.append(state.right_panel.current_dir.as_str());
            return Some(t);
        }
        if word_is(&w, "/notifications") {
            return Some(String::from_str("Notifications toggle command - handled by UI"));
        }
        if word_is(&w, "/config") {
            return Some(String::from_str("Opening configuration - handled by UI"));
        }
        None
    }

    /// Where `cd` with the given arguments goes: home for no arguments; an
    /// absolute path, a path under home for `~/...`, or a path relative to the
    /// current directory, each only if it is a directory.
    pub fn cd_target(args: &str, current_dir: &str, home: Option<String>) -> (r: CdTarget)
        requires
            args@.len() > 0 && args@[0] == '~' ==> args@.len() >= 2 && (args@[1] as u32) < 128,
        ensures
            args@.len() == 0 ==> (match home {
                Some(h) => r matches CdTarget::Direct(p) && p@ == h@,
                None => r is Nowhere,
            }),
            args@.len() > 0 && args@[0] == '/' ==> (r matches CdTarget::IfDirectory(p) && p@ == args@),
            args@.len() > 0 && args@[0] == '~' ==> (match home {
                Some(h) => r matches CdTarget::IfDirectory(p) && p@ == paths::path_join(
                    h@,
                    args@.subrange(2, args@.len() as int),
                ),
                None => r is Nowhere,
            }),
            args@.len() > 0 && args@[0] != '/' && args@[0] != '~' ==> (r matches CdTarget::IfDirectory(p)
                && p@ == paths::path_join(current_dir@, args@)),
    {
        let cs = text::chars_of(args);
        if cs.len() == 0 {
            return match home {
                Some(h) => CdTarget::Direct(h),
                None => CdTarget::Nowhere,
            };
        }
        if cs[0] == '/' {
            CdTarget::IfDirectory(args.to_string())
        } else if cs[0] == '~' {
            match home {
                Some(h) => {
                    let rest = vstd::slice::slice_subrange(cs.as_slice(), 2, cs.len());
                    let rest = text::string_from_chars(rest);
                    CdTarget::IfDirectory(paths::join(h.as_str(), rest.as_str()))
                },
                None => CdTarget::Nowhere,
            }
        } else {
            CdTarget::IfDirectory(paths::join(current_dir, args))
        }
    }
}

/// The names of marked paths that have one, joined with spaces.
fn marked_names(marks: &Vec<String>) -> (r: String)
    ensures
        r@ == join_spaced(file_names(crate::cache::strings_view(marks@))),
{
    let ghost ms = crate::cache::strings_view(marks@);
    let mut r = String::new();
    let mut count: usize = 0;
    let mut i: usize = 0;
    while i < marks.len()
        invariant
            ms == crate::cache::strings_view(marks@),
            i <= marks@.len(),
            count == file_names(ms.take(i as int)).len(),
            count <= i,
            r@ == join_spaced(file_names(ms.take(i as int))),
        decreases marks@.len() - i,
    {
        assert(ms.take(i + 1).drop_last() =~= ms.take(i as int));
        assert(ms.take(i + 1).last() == marks@[i as int]@);
        let ghost names = file_names(ms.take(i as int));
        match paths::file_name(marks[i].as_str()) {
            Some(n) => {
                assert(file_names(ms.take(i + 1)) == names.push(n@));
                assert(names.push(n@).drop_last() =~= names);
                if count > 0 {
                    proof {
                        reveal_strlit(" ");
                    }
                    let ghost before = r@;
                    r.append(" ");
                    r.append(n.as_str());
                    assert(r@ =~= before + seq![' '] + n@);
                } else {
                    assert(names.push(n@) =~= seq![n@]);
                    r = n;
                }
                count = count + 1;
            },
            None => {},
        }
        i = i + 1;
    }
    assert(ms.take(marks@.len() as int) =~= ms);
    r
}

/// A path in double quotes.
fn quote(p: &str) -> (r: String)
    ensures
        r@ == quoted(p@),
{
    let mut r = String::from_str("\"");
    r.append(p);
    r.append("\"");
    proof {
        reveal_strlit("\"");
    }
    r
}

/// The marked paths, quoted and joined with spaces.
fn quoted_paths(marks: &Vec<String>) -> (r: String)
    requires
        marks@.len() > 0,
    ensures
        r@ == join_spaced(crate::cache::strings_view(marks@).map_values(|m: Seq<char>| quoted(m))),
{
    let ghost qs = crate::cache::strings_view(marks@).map_values(|m: Seq<char>| quoted(m));
    let mut r = quote(marks[0].as_str());
    assert(qs.take(1) =~= seq![quoted(marks@[0]@)]);
    let mut i: usize = 1;
    while i < marks.len()
        invariant
            qs == crate::cache::strings_view(marks@).map_values(|m: Seq<char>| quoted(m)),
            1 <= i <= marks@.len(),
            r@ == join_spaced(qs.take(i as int)),
        decreases marks@.len() - i,
    {
        assert(qs.take(i + 1).drop_last() =~= qs.take(i as int));
        assert(qs.take(i + 1).last() == quoted(marks@[i as int]@));
        let q = quote(marks[i].as_str());
        proof {
            reveal_strlit(" ");
        }
        let ghost before = r@;
        r.append(" ");
        r.append(q.as_str());
        assert(r@ =~= before + seq![' '] + q@);
        i = i + 1;
    }
    assert(qs.take(marks@.len() as int) =~= qs);
    r
}

proof fn lemma_replace_without_marker(s: Seq<char>, pat: Seq<char>, rep: Seq<char>)
    requires
        pat.len() > 0,
        pat[0] == '%',
        forall|i: int| 0 <= i < s.len() ==> s[i] != '%',
    ensures
        replace_all(s, pat, rep) == s,
    decreases s.len(),
{
    if s.len() >= pat.len() {
        assert(!text::occurs_at(s, pat, 0)) by {
            if text::occurs_at(s, pat, 0) {
                assert(s.subrange(0, pat.len() as int)[0] == s[0]);
            }
        }
        assert forall|i: int| 0 <= i < s.drop_first().len() implies s.drop_first()[i] != '%' by {
            assert(s.drop_first()[i] == s[i + 1]);
        }
        lemma_replace_without_marker(s.drop_first(), pat, rep);
        assert(seq![s[0]] + s.drop_first() =~= s);
    }
}

/// A command without `%` is run as it was typed.
pub proof fn law_expansion_without_variables(command: Seq<char>, active: PanelState, inactive: PanelState)
    requires
        forall|i: int| 0 <= i < command.len() ==> command[i] != '%',
    ensures
        expansion(command, active, inactive) == command,
{
    reveal_strlit("%f");
    reveal_strlit("%F");
    reveal_strlit("%d");
    reveal_strlit("%D");
    reveal_strlit("%p");
    reveal_strlit("%P");
    lemma_replace_without_marker(command, "%f"@, current_name(active));
    lemma_replace_without_marker(command, "%F"@, marked_names_text(active));
    lemma_replace_without_marker(command, "%d"@, active.current_dir@);
    lemma_replace_without_marker(command, "%D"@, inactive.current_dir@);
    lemma_replace_without_marker(command, "%p"@, current_path(active));
    lemma_replace_without_marker(command, "%P"@, marked_paths_text(active));
}

} // verus!
