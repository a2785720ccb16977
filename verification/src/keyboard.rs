//! Keys typed while no dialog is open: panel navigation, editing of the
//! command line (whose cursor counts UTF-8 bytes), the function keys and
//! the few keys that end the event loop.

use vstd::prelude::*;
use vstd::utf8::encode_utf8;
use crate::cursor::{self, char_index, on_boundary, prefix_bytes};
use crate::actions::{can_scroll, current_file, into_target, moved_down, moved_up, scrolled};
use crate::fs::FileType;
use crate::menu::{self, copy_asked, delete_asked, move_asked};
use crate::paths::{self, path_extension, path_parent};
use crate::shortcuts::{KeyCode, KeyModifiers};
use crate::state::{ActivePanel, AppState, PanelState, byte_length_of, dotdot, min, with_active};
use crate::text;
use crate::theme::ThemeMode;
use crate::vfs::{VfsEntry, VfsError, VfsPath, VfsPathView};

verus! {

/// Room for the command line to grow by a character, in byte positions.
pub open spec fn line_fits(s: Seq<char>) -> bool {
    encode_utf8(s).len() + 4 <= usize::MAX
}

/// The state with another command line and cursor.
pub open spec fn with_line(s: AppState, t: AppState) -> AppState {
    AppState { command_line: t.command_line, command_cursor: t.command_cursor, ..s }
}

/// `s` with `c` inserted at character position `k`.
pub open spec fn inserted(s: Seq<char>, k: int, c: char) -> Seq<char> {
    s.take(k).push(c) + s.skip(k)
}

/// `s` without the character at position `k`.
pub open spec fn removed(s: Seq<char>, k: int) -> Seq<char> {
    s.take(k) + s.skip(k + 1)
}

fn edited(cs: &Vec<char>, k: usize, insert: Option<char>) -> (r: String)
    requires
        k <= cs@.len(),
        insert is None ==> k < cs@.len(),
    ensures
        r@ == match insert {
            Some(c) => inserted(cs@, k as int, c),
            None => removed(cs@, k as int),
        },
{
    let mut v: Vec<char> = Vec::new();
    let mut i: usize = 0;
    while i < k
        invariant
            i <= k <= cs@.len(),
            v@ == cs@.take(i as int),
        decreases k - i,
    {
        v.push(cs[i]);
        i = i + 1;
        assert(v@ =~= cs@.take(i as int));
    }
    let start = match insert {
        Some(c) => {
            v.push(c);
            k
        },
        None => {
            let n = cs.len();
            assert(k < n);
            k + 1
        },
    };
    let ghost head = v@;
    let mut j: usize = start;
    while j < cs.len()
        invariant
            start <= j <= cs@.len(),
            v@ == head + cs@.subrange(start as int, j as int),
        decreases cs@.len() - j,
    {
        v.push(cs[j]);
        j = j + 1;
        assert(v@ =~= head + cs@.subrange(start as int, j as int));
    }
    assert(cs@.subrange(start as int, cs@.len() as int) =~= cs@.skip(start as int));
    text::string_from_chars(v.as_slice())
}

/// Types a character at the cursor, which moves one byte on.
pub fn insert_char(state: &mut AppState, c: char)
    requires
        on_boundary(old(state).command_line@, old(state).command_cursor as int),
        old(state).command_cursor < usize::MAX,
    ensures
        *final(state) == with_line(*old(state), *final(state)),
        final(state).command_line@ == inserted(
            old(state).command_line@,
            char_index(old(state).command_line@, old(state).command_cursor as int),
            c,
        ),
        final(state).command_cursor == old(state).command_cursor + 1,
{
    let cs = text::chars_of(state.command_line.as_str());
    match cursor::index_at_byte(&cs, state.command_cursor) {
        Some(k) => {
            state.command_line = edited(&cs, k, Some(c));
            state.command_cursor = state.command_cursor + 1;
        },
        None => {},
    }
}

/// Deletes the character before the cursor, which moves back one byte.
pub fn delete_before_cursor(state: &mut AppState)
    requires
        old(state).command_cursor > 0 ==> on_boundary(old(state).command_line@, old(state).command_cursor - 1)
            && old(state).command_cursor - 1 < encode_utf8(old(state).command_line@).len(),
    ensures
        old(state).command_cursor == 0 ==> *final(state) == *old(state),
        old(state).command_cursor > 0 ==> {
            &&& *final(state) == with_line(*old(state), *final(state))
            &&& final(state).command_line@ == removed(
                old(state).command_line@,
                char_index(old(state).command_line@, old(state).command_cursor - 1),
            )
            &&& final(state).command_cursor == old(state).command_cursor - 1
        },
{
    if state.command_cursor > 0 {
        let cs = text::chars_of(state.command_line.as_str());
        let b = state.command_cursor - 1;
        match cursor::index_at_byte(&cs, b) {
            Some(k) => {
                if k < cs.len() {
                    state.command_line = edited(&cs, k, None);
                    state.command_cursor = b;
                } else {
                    proof {
                        cursor::lemma_char_index(cs@, cs@.len() as int);
                        assert(cs@.take(cs@.len() as int) =~= cs@);
                    }
                }
            },
            None => {},
        }
    }
}

/// Deletes the character at the cursor, if there is one.
pub fn delete_at_cursor(state: &mut AppState)
    requires
        line_fits(old(state).command_line@),
        old(state).command_cursor < byte_length_of(old(state).command_line@) ==> on_boundary(
            old(state).command_line@,
            old(state).command_cursor as int,
        ),
    ensures
        old(state).command_cursor >= byte_length_of(old(state).command_line@) ==> *final(state) == *old(state),
        old(state).command_cursor < byte_length_of(old(state).command_line@) ==> {
            &&& *final(state) == with_line(*old(state), *final(state))
            &&& final(state).command_line@ == removed(
                old(state).command_line@,
                char_index(old(state).command_line@, old(state).command_cursor as int),
            )
            &&& final(state).command_cursor == old(state).command_cursor
        },
{
    if state.command_cursor < state.command_line.as_str().len() {
        let cs = text::chars_of(state.command_line.as_str());
        match cursor::index_at_byte(&cs, state.command_cursor) {
            Some(k) => {
                if k < cs.len() {
                    state.command_line = edited(&cs, k, None);
                } else {
                    proof {
                        assert(cs@.take(cs@.len() as int) =~= cs@);
                    }
                }
            },
            None => {},
        }
    }
}

/// What a key leaves to the interface.
#[derive(Debug)]
pub enum KeyEffect {
    Nothing,
    /// The active panel is to be listed again from its directory, and the
    /// directory watched for changes when `watch` holds.
    Reload { watch: bool },
    OpenHelp,
    /// The file is to be shown in the viewer.
    View(String),
    /// The file is to be opened in the editor.
    Edit(String),
    /// A dialog asks for the name of a directory to create.
    AskDirectoryName,
    /// The theme selection dialog opens on the current theme.
    ChooseTheme(ThemeMode),
    /// The command line is to be run.
    RunCommand(String),
}

/// What a key does: the effect, and whether the event loop stops.
#[derive(Debug)]
pub struct KeyOutcome {
    pub effect: KeyEffect,
    pub stop: bool,
}

/// Which handler takes a key.
#[derive(Debug, Clone, Copy, PartialEq, Eq, Structural)]
pub enum KeyRoute {
    Navigation,
    CommandLine,
    FunctionKey,
    SwitchPanel,
    EnterEntry,
    Unhandled,
}

/// Which handler takes a key: with an empty command line the cursor keys
/// (unmodified) and the page keys move in the panel; every character key
/// and, on a non-empty line, the editing keys go to the command line; then
/// the function keys F1 to F10, Tab, and Enter on an empty line.
pub open spec fn key_route(s: AppState, code: KeyCode, mods: KeyModifiers) -> KeyRoute {
    let empty = s.command_line@.len() == 0;
    if empty && match code {
        KeyCode::Up | KeyCode::Down | KeyCode::Left | KeyCode::Right => mods.is_none(),
        KeyCode::PageUp | KeyCode::PageDown | KeyCode::Home | KeyCode::End => true,
        _ => false,
    } {
        KeyRoute::Navigation
    } else if code is Char || (!empty && match code {
        KeyCode::Backspace | KeyCode::Delete | KeyCode::Left | KeyCode::Right | KeyCode::Up | KeyCode::Down
        | KeyCode::Enter | KeyCode::Esc => true,
        _ => false,
    }) {
        KeyRoute::CommandLine
    } else if code matches KeyCode::F(n) && 1 <= n <= 10 {
        KeyRoute::FunctionKey
    } else if code == KeyCode::Tab {
        KeyRoute::SwitchPanel
    } else if code == KeyCode::Enter {
        KeyRoute::EnterEntry
    } else {
        KeyRoute::Unhandled
    }
}

/// Whether `t` is `s` with the active panel showing directory `d` from its
/// top.
pub open spec fn opened_dir(s: AppState, t: AppState, d: Seq<char>) -> bool {
    &&& t == with_active(s, t.active())
    &&& t.active() == (PanelState { current_dir: t.active().current_dir, selected_index: 0, view_offset: 0, ..s.active() })
    &&& t.active().current_dir@ == d
}

/// The last entry position of a panel (0 when empty).
pub open spec fn last_index(p: PanelState) -> int {
    if p.visible().len() > 0 {
        p.visible().len() - 1
    } else {
        0
    }
}

/// What a navigation key does.
pub open spec fn navigation_done(s: AppState, t: AppState, code: KeyCode, height: u16, r: KeyEffect) -> bool {
    let p = s.active();
    let page = height - 10;
    match code {
        KeyCode::Up => t == with_active(s, scrolled(moved_up(p), Some(height))) && r is Nothing,
        KeyCode::Down => t == with_active(s, scrolled(moved_down(p), Some(height))) && r is Nothing,
        KeyCode::Left => match path_parent(p.current_dir@) {
            Some(q) => opened_dir(s, t, q) && r == (KeyEffect::Reload { watch: true }),
            None => t == s && r is Nothing,
        },
        KeyCode::Right => match into_target(p) {
            Some(d) => opened_dir(s, t, d) && r == (KeyEffect::Reload { watch: true }),
            None => t == s && r is Nothing,
        },
        KeyCode::PageUp => t == with_active(
            s,
            PanelState {
                selected_index: (if p.selected_index >= page { p.selected_index - page } else { 0 }) as usize,
                ..p
            },
        ) && r is Nothing,
        KeyCode::PageDown => t == with_active(
            s,
            PanelState { selected_index: min(p.selected_index + page, last_index(p)) as usize, ..p },
        ) && r is Nothing,
        KeyCode::Home => t == with_active(s, PanelState { selected_index: 0, ..p }) && r is Nothing,
        KeyCode::End => t == with_active(s, PanelState { selected_index: last_index(p) as usize, ..p })
            && r is Nothing,
        _ => true,
    }
}

/// The history position the Up key recalls.
pub open spec fn history_up_index(s: AppState) -> int {
    match s.command_history_index {
        None => s.command_history@.len() - 1,
        Some(i) => if i > 0 {
            i - 1
        } else {
            i as int
        },
    }
}

/// What an editing key on the command line does.
pub open spec fn command_line_done(s: AppState, t: AppState, code: KeyCode, r: KeyEffect) -> bool {
    let line = s.command_line@;
    let cur = s.command_cursor;
    let hist = s.command_history@;
    match code {
        KeyCode::Char(c) => {
            &&& t == with_line(s, t)
            &&& t.command_line@ == inserted(line, char_index(line, cur as int), c)
            &&& t.command_cursor == cur + 1
            &&& r is Nothing
        },
        KeyCode::Backspace => r is Nothing && if cur == 0 {
            t == s
        } else {
            &&& t == with_line(s, t)
            &&& t.command_line@ == removed(line, char_index(line, cur - 1))
            &&& t.command_cursor == cur - 1
        },
        KeyCode::Delete => r is Nothing && if cur >= byte_length_of(line) {
            t == s
        } else {
            &&& t == with_line(s, t)
            &&& t.command_line@ == removed(line, char_index(line, cur as int))
            &&& t.command_cursor == cur
        },
        KeyCode::Left => r is Nothing && t == (AppState {
            command_cursor: if cur > 0 { (cur - 1) as usize } else { cur },
            ..s
        }),
        KeyCode::Right => r is Nothing && t == (AppState {
            command_cursor: if cur < byte_length_of(line) { (cur + 1) as usize } else { cur },
            ..s
        }),
        KeyCode::Up => r is Nothing && if hist.len() == 0 {
            t == s
        } else {
            &&& t == (AppState {
                command_line: t.command_line,
                command_cursor: t.command_cursor,
                command_history_index: Some(history_up_index(s) as usize),
                ..s
            })
            &&& t.command_line@ == hist[history_up_index(s)]@
            &&& t.command_cursor as nat == byte_length_of(t.command_line@)
        },
        KeyCode::Down => r is Nothing && match s.command_history_index {
            None => t == s,
            Some(i) => {
                &&& t == (AppState {
                    command_line: t.command_line,
                    command_cursor: t.command_cursor,
                    command_history_index: t.command_history_index,
                    ..s
                })
                &&& (if i + 1 < hist.len() {
                    t.command_history_index == Some((i + 1) as usize) && t.command_line@ == hist[i + 1]@
                } else {
                    t.command_history_index is None && t.command_line@.len() == 0
                })
                &&& t.command_cursor as nat == byte_length_of(t.command_line@)
            },
        },
        KeyCode::Enter => {
            &&& t == (AppState {
                command_history: t.command_history,
                command_history_index: None,
                command_line: t.command_line,
                command_cursor: 0,
                ..s
            })
            &&& t.command_history@ == hist.push(s.command_line)
            &&& t.command_line@.len() == 0
            &&& (r matches KeyEffect::RunCommand(c) && c == s.command_line)
        },
        KeyCode::Esc => r is Nothing && if s.command_output_visible {
            &&& t == (AppState { command_output_visible: false, status_message: t.status_message, ..s })
            &&& t.status_message matches Some(m) && m@ == "Command output panel closed"@
        } else {
            &&& t == (AppState {
                command_line: t.command_line,
                command_cursor: 0,
                command_history_index: None,
                ..s
            })
            &&& t.command_line@.len() == 0
        },
        _ => true,
    }
}

/// What a function key does.
pub open spec fn function_key_done(s: AppState, t: AppState, code: KeyCode, r: KeyEffect) -> bool {
    let p = s.active();
    match code {
        KeyCode::F(1) => t == s && r is OpenHelp,
        KeyCode::F(2) => t == with_line(s, t) && t.command_line@ == seq!['/'] && t.command_cursor == 1
            && r is Nothing,
        KeyCode::F(3) => t == s && match current_file(p) {
            Some(f) => r matches KeyEffect::View(x) && x@ == f,
            None => r is Nothing,
        },
        KeyCode::F(4) => t == s && match current_file(p) {
            Some(f) => r matches KeyEffect::Edit(x) && x@ == f,
            None => r is Nothing,
        },
        KeyCode::F(5) => copy_asked(s, t) && r is Nothing,
        KeyCode::F(6) => move_asked(s, t) && r is Nothing,
        KeyCode::F(7) => t == s && r is AskDirectoryName,
        KeyCode::F(8) => delete_asked(s, t) && r is Nothing,
        KeyCode::F(9) => t == s && r == KeyEffect::ChooseTheme(s.theme_manager.current().mode),
        _ => t == s && r is Nothing,
    }
}

/// Whether a path names an archive that Enter opens, by its extension
/// (ignoring case).
pub open spec fn enterable_archive(p: Seq<char>) -> bool {
    match path_extension(p) {
        Some(e) => {
            let l = text::lowercase(e);
            l == "zip"@ || l == "tar"@ || l == "gz"@ || l == "7z"@
        },
        None => false,
    }
}

/// The virtual entry under the cursor.
pub open spec fn current_vfs(p: PanelState) -> Option<VfsEntry> {
    if p.selected_index < p.visible_vfs().len() {
        Some(p.visible_vfs()[p.selected_index as int])
    } else {
        None
    }
}

/// Whether `t` is `s` after the active panel left its virtual listing for
/// the directory holding the archive.
pub open spec fn left_vfs(s: AppState, t: AppState) -> bool {
    let p = s.active();
    &&& t == with_active(s, t.active())
    &&& t.active() == (PanelState {
        current_vfs_path: None,
        vfs_entries: t.active().vfs_entries,
        filtered_vfs_entries: t.active().filtered_vfs_entries,
        current_dir: t.active().current_dir,
        ..p
    })
    &&& t.active().vfs_entries@.len() == 0
    &&& t.active().filtered_vfs_entries@.len() == 0
    &&& t.active().current_dir@ == match p.current_vfs_path.unwrap()@ {
        VfsPathView::Archive { archive_path, .. } => match path_parent(archive_path) {
            Some(q) => q,
            None => p.current_dir@,
        },
        _ => p.current_dir@,
    }
}

/// Whether `t` is `s` after the active panel opened the archive at `path`.
pub open spec fn opened_archive(s: AppState, t: AppState, path: String) -> bool {
    &&& t == with_active(s, t.active())
    &&& t.active() == (PanelState {
        current_vfs_path: t.active().current_vfs_path,
        vfs_entries: t.active().vfs_entries,
        filtered_vfs_entries: t.active().filtered_vfs_entries,
        selected_index: 0,
        view_offset: 0,
        ..s.active()
    })
    &&& t.active().current_vfs_path matches Some(VfsPath::Archive { archive_path, internal_path })
        && archive_path == path && internal_path@.len() == 0
    &&& t.active().vfs_entries@.len() == 0
    &&& t.active().filtered_vfs_entries@.len() == 0
}

/// What Enter on an empty command line does to the entry under the cursor:
/// in a virtual listing `..` leaves it (other entries cannot be opened);
/// otherwise a directory (or `..`, the parent) is shown, and an archive is
/// opened as a virtual listing.
pub open spec fn entered(s: AppState, t: AppState, r: KeyEffect) -> bool {
    let p = s.active();
    if p.current_vfs_path is Some {
        match current_vfs(p) {
            Some(e) => if e.name@ == dotdot() {
                left_vfs(s, t) && r == (KeyEffect::Reload { watch: false })
            } else {
                &&& t == (AppState { status_message: t.status_message, ..s })
                &&& t.status_message matches Some(m) && m@ == "VFS navigation not available in this build"@
                &&& r is Nothing
            },
            None => t == s && r is Nothing,
        }
    } else {
        match p.current_entry_spec() {
            Some(e) => if e.file_type == FileType::Directory {
                let target = if e.name@ == dotdot() {
                    path_parent(p.current_dir@)
                } else {
                    Some(e.path@)
                };
                match target {
                    Some(d) => opened_dir(s, t, d) && r == (KeyEffect::Reload { watch: false }),
                    None => t == s && r is Nothing,
                }
            } else if enterable_archive(e.path@) {
                opened_archive(s, t, e.path) && r is Nothing
            } else {
                t == s && r is Nothing
            },
            None => t == s && r is Nothing,
        }
    }
}

/// What a key does to the state (`s` before, `t` after) and what it
/// leaves to the interface, in a terminal `height` rows high.
pub open spec fn key_done(s: AppState, t: AppState, code: KeyCode, mods: KeyModifiers, height: u16, r: KeyOutcome) -> bool {
    match key_route(s, code, mods) {
        KeyRoute::Navigation => navigation_done(s, t, code, height, r.effect) && !r.stop,
        KeyRoute::CommandLine => command_line_done(s, t, code, r.effect) && !r.stop,
        KeyRoute::FunctionKey => function_key_done(s, t, code, r.effect) && !r.stop,
        KeyRoute::SwitchPanel => t == (AppState {
            active_panel: match s.active_panel {
                ActivePanel::Left => ActivePanel::Right,
                ActivePanel::Right => ActivePanel::Left,
            },
            ..s
        }) && r.effect is Nothing && r.stop,
        KeyRoute::EnterEntry => entered(s, t, r.effect) && r.stop,
        KeyRoute::Unhandled => t == s && r.effect is Nothing && !r.stop,
    }
}

/// What a key demands of the state: a terminal high enough for the panel
/// keys (its height less five or ten rows is taken), a cursor on a character
/// boundary for typing and deleting, a history position inside the history,
/// and positions that fit in a `usize`.
pub open spec fn key_allowed(s: AppState, code: KeyCode, mods: KeyModifiers, height: u16) -> bool {
    let line = s.command_line@;
    let cur = s.command_cursor;
    match key_route(s, code, mods) {
        KeyRoute::Navigation => match code {
            KeyCode::Up => height >= 5 && can_scroll(moved_up(s.active()), Some(height)),
            KeyCode::Down => height >= 5 && can_scroll(moved_down(s.active()), Some(height)),
            KeyCode::PageUp => height >= 10,
            KeyCode::PageDown => height >= 10 && s.active().selected_index + (height - 10) <= usize::MAX,
            _ => true,
        },
        KeyRoute::CommandLine => {
            &&& line_fits(line)
            &&& (s.command_history_index matches Some(i) ==> i < s.command_history@.len())
            &&& match code {
                KeyCode::Char(_) => on_boundary(line, cur as int) && cur < usize::MAX,
                KeyCode::Backspace => cur > 0 ==> on_boundary(line, cur - 1) && cur - 1 < encode_utf8(line).len(),
                KeyCode::Delete => cur < byte_length_of(line) ==> on_boundary(line, cur as int),
                _ => true,
            }
        },
        _ => true,
    }
}

/// Shows a directory in the active panel, from its top.
fn navigate_to_directory(state: &mut AppState, dir: String)
    ensures
        opened_dir(*old(state), *final(state), dir@),
{
    let panel = state.active_panel_mut();
    panel.current_dir = dir;
    panel.selected_index = 0;
    panel.view_offset = 0;
}

fn no_modifiers(m: KeyModifiers) -> (r: bool)
    ensures
        r == m.is_none(),
{
    !m.shift && !m.control && !m.alt && !m.super_key && !m.hyper && !m.meta
}

fn handle_navigation(state: &mut AppState, code: KeyCode, height: u16) -> (r: KeyEffect)
    requires
        code == KeyCode::Up ==> height >= 5 && can_scroll(moved_up(old(state).active()), Some(height)),
        code == KeyCode::Down ==> height >= 5 && can_scroll(moved_down(old(state).active()), Some(height)),
        code == KeyCode::PageUp ==> height >= 10,
        code == KeyCode::PageDown ==> height >= 10 && old(state).active().selected_index + (height - 10)
            <= usize::MAX,
    ensures
        navigation_done(*old(state), *final(state), code, height, r),
{
    match code {
        KeyCode::Up | KeyCode::Down => {
            let panel = state.active_panel_mut();
            if code == KeyCode::Up {
                panel.move_selection_up();
            } else {
                panel.move_selection_down();
            }
            panel.update_view_offset(height as usize - 5);
            KeyEffect::Nothing
        },
        KeyCode::Left => {
            match paths::parent(state.active_panel().current_dir.as_str()) {
                Some(q) => {
                    navigate_to_directory(state, q);
                    KeyEffect::Reload { watch: true }
                },
                None => KeyEffect::Nothing,
            }
        },
        KeyCode::Right => {
            let panel = state.active_panel();
            let target = match panel.current_entry() {
                Some(e) => if e.file_type == FileType::Directory {
                    if crate::state::is_dotdot(&e.name) {
                        paths::parent(panel.current_dir.as_str())
                    } else {
                        Some(e.path.clone())
                    }
                } else {
                    None
                },
                None => None,
            };
            match target {
                Some(d) => {
                    navigate_to_directory(state, d);
                    KeyEffect::Reload { watch: true }
                },
                None => KeyEffect::Nothing,
            }
        },
        KeyCode::PageUp => {
            state.active_panel_mut().move_selection_page_up(height as usize - 10);
            KeyEffect::Nothing
        },
        KeyCode::PageDown => {
            state.active_panel_mut().move_selection_page_down(height as usize - 10);
            KeyEffect::Nothing
        },
        KeyCode::Home => {
            state.active_panel_mut().move_selection_home();
            KeyEffect::Nothing
        },
        KeyCode::End => {
            state.active_panel_mut().move_selection_end();
            KeyEffect::Nothing
        },
        _ => KeyEffect::Nothing,
    }
}

/// Runs the command line: it goes to the history and the line is cleared.
fn execute_command(state: &mut AppState) -> (r: KeyEffect)
    ensures
        command_line_done(*old(state), *final(state), KeyCode::Enter, r),
{
    let command = state.command_line.clone();
    state.command_history.push(command.clone());
    state.command_history_index = None;
    state.command_line = String::new();
    state.command_cursor = 0;
    KeyEffect::RunCommand(command)
}

/// Esc on the command line: closes the command output when it is shown,
/// else clears the line.
fn handle_esc_key(state: &mut AppState)
    ensures
        command_line_done(*old(state), *final(state), KeyCode::Esc, KeyEffect::Nothing),
{
    if state.command_output_visible {
        state.command_output_visible = false;
        state.set_status_message(String::from_str("Command output panel closed"));
    } else {
        state.command_line = String::new();
        state.command_cursor = 0;
        state.command_history_index = None;
    }
}

fn handle_command_line(state: &mut AppState, code: KeyCode) -> (r: KeyEffect)
    requires
        line_fits(old(state).command_line@),
        old(state).command_history_index matches Some(i) ==> i < old(state).command_history@.len(),
        code matches KeyCode::Char(_) ==> on_boundary(old(state).command_line@, old(state).command_cursor as int)
            && old(state).command_cursor < usize::MAX,
        code == KeyCode::Backspace ==> (old(state).command_cursor > 0 ==> on_boundary(
            old(state).command_line@,
            old(state).command_cursor - 1,
        ) && old(state).command_cursor - 1 < encode_utf8(old(state).command_line@).len()),
        code == KeyCode::Delete ==> (old(state).command_cursor < byte_length_of(old(state).command_line@)
            ==> on_boundary(old(state).command_line@, old(state).command_cursor as int)),
    ensures
        command_line_done(*old(state), *final(state), code, r),
{
    match code {
        KeyCode::Char(c) => {
            insert_char(state, c);
            KeyEffect::Nothing
        },
        KeyCode::Backspace => {
            delete_before_cursor(state);
            KeyEffect::Nothing
        },
        KeyCode::Delete => {
            delete_at_cursor(state);
            KeyEffect::Nothing
        },
        KeyCode::Left => {
            if state.command_cursor > 0 {
                state.command_cursor = state.command_cursor - 1;
            }
            KeyEffect::Nothing
        },
        KeyCode::Right => {
            if state.command_cursor < state.command_line.as_str().len() {
                state.command_cursor = state.command_cursor + 1;
            }
            KeyEffect::Nothing
        },
        KeyCode::Up => {
            state.navigate_history_up();
            KeyEffect::Nothing
        },
        KeyCode::Down => {
            state.navigate_history_down();
            KeyEffect::Nothing
        },
        KeyCode::Enter => execute_command(state),
        KeyCode::Esc => {
            handle_esc_key(state);
            KeyEffect::Nothing
        },
        _ => KeyEffect::Nothing,
    }
}

/// The regular file under the cursor of the active panel.
fn current_file_path(state: &AppState) -> (r: Option<String>)
    ensures
        match current_file(state.active()) {
            Some(f) => r matches Some(x) && x@ == f,
            None => r is None,
        },
{
    match state.active_panel().current_entry() {
        Some(e) => if e.file_type == FileType::File {
            Some(e.path.clone())
        } else {
            None
        },
        None => None,
    }
}

fn handle_function_keys(state: &mut AppState, code: KeyCode) -> (r: KeyEffect)
    ensures
        function_key_done(*old(state), *final(state), code, r),
{
    match code {
        KeyCode::F(1) => KeyEffect::OpenHelp,
        KeyCode::F(2) => {
            let mut line = String::new();
            text::push_char(&mut line, '/');
            assert(line@ =~= seq!['/']);
            state.command_line = line;
            state.command_cursor = 1;
            KeyEffect::Nothing
        },
        KeyCode::F(3) => match current_file_path(state) {
            Some(p) => KeyEffect::View(p),
            None => KeyEffect::Nothing,
        },
        KeyCode::F(4) => match current_file_path(state) {
            Some(p) => KeyEffect::Edit(p),
            None => KeyEffect::Nothing,
        },
        KeyCode::F(5) => {
            menu::copy_files(state);
            KeyEffect::Nothing
        },
        KeyCode::F(6) => {
            menu::move_files(state);
            KeyEffect::Nothing
        },
        KeyCode::F(7) => KeyEffect::AskDirectoryName,
        KeyCode::F(8) => {
            menu::delete_files(state);
            KeyEffect::Nothing
        },
        KeyCode::F(9) => KeyEffect::ChooseTheme(state.theme_manager.get_current_theme().mode),
        _ => KeyEffect::Nothing,
    }
}

/// Whether a path names an archive that Enter opens.
fn is_enterable_archive(path: &str) -> (r: bool)
    ensures
        r == enterable_archive(path@),
{
    match paths::extension(path) {
        Some(e) => {
            let l = text::to_lowercase(e.as_str());
            let w = l.as_str();
            text::str_eq(w, "zip") || text::str_eq(w, "tar") || text::str_eq(w, "gz") || text::str_eq(w, "7z")
        },
        None => false,
    }
}

/// Opens the entry under the cursor of the active panel (see `entered`).
pub fn enter_directory_or_archive(state: &mut AppState) -> (r: KeyEffect)
    ensures
        entered(*old(state), *final(state), r),
{
    if state.active_panel().is_using_vfs() {
        let back = match state.active_panel().current_vfs_entry() {
            Some(e) => Some(crate::state::is_dotdot(&e.name)),
            None => None,
        };
        match back {
            Some(true) => {
                state.navigate_back_from_vfs();
                KeyEffect::Reload { watch: false }
            },
            Some(false) => {
                state.set_status_message(String::from_str("VFS navigation not available in this build"));
                KeyEffect::Nothing
            },
            None => KeyEffect::Nothing,
        }
    } else {
        let panel = state.active_panel();
        let (dir, archive) = match panel.current_entry() {
            Some(e) => if e.file_type == FileType::Directory {
                let target = if crate::state::is_dotdot(&e.name) {
                    paths::parent(panel.current_dir.as_str())
                } else {
                    Some(e.path.clone())
                };
                (target, None)
            } else if is_enterable_archive(e.path.as_str()) {
                (None, Some(e.path.clone()))
            } else {
                (None, None)
            },
            None => (None, None),
        };
        match (dir, archive) {
            (Some(d), _) => {
                navigate_to_directory(state, d);
                KeyEffect::Reload { watch: false }
            },
            (None, Some(archive_path)) => {
                let path = VfsPath::Archive { archive_path, internal_path: String::new() };
                let _ = state.navigate_into_vfs(
                    path,
                    |_p: &str| -> (r: Result<Vec<VfsEntry>, VfsError>) { Ok(Vec::new()) },
                );
                KeyEffect::Nothing
            },
            (None, None) => KeyEffect::Nothing,
        }
    }
}

/// Tab switches panels and Enter opens the entry under the cursor; both
/// stop the event loop.
fn handle_special_keys(state: &mut AppState, code: KeyCode) -> (r: KeyOutcome)
    ensures
        code == KeyCode::Tab ==> *final(state) == (AppState {
            active_panel: match old(state).active_panel {
                ActivePanel::Left => ActivePanel::Right,
                ActivePanel::Right => ActivePanel::Left,
            },
            ..*old(state)
        }) && r.effect is Nothing && r.stop,
        code == KeyCode::Enter ==> entered(*old(state), *final(state), r.effect) && r.stop,
        code != KeyCode::Tab && code != KeyCode::Enter ==> *final(state) == *old(state) && r.effect is Nothing
            && !r.stop,
{
    match code {
        KeyCode::Tab => {
            state.toggle_panel();
            KeyOutcome { effect: KeyEffect::Nothing, stop: true }
        },
        KeyCode::Enter => {
            let effect = enter_directory_or_archive(state);
            KeyOutcome { effect, stop: true }
        },
        _ => KeyOutcome { effect: KeyEffect::Nothing, stop: false },
    }
}

/// Handles a key typed while no dialog is open (see `key_route` for which
/// handler takes it and `key_done` for what each does). `stop` is what the
/// event loop takes as the signal to end.
pub fn handle_input(state: &mut AppState, code: KeyCode, mods: KeyModifiers, height: u16) -> (r: KeyOutcome)
    requires
        key_allowed(*old(state), code, mods, height),
    ensures
        key_done(*old(state), *final(state), code, mods, height, r),
{
    let empty = state.command_line.as_str().is_empty();
    let nav = empty && match code {
        KeyCode::Up | KeyCode::Down | KeyCode::Left | KeyCode::Right => no_modifiers(mods),
        KeyCode::PageUp | KeyCode::PageDown | KeyCode::Home | KeyCode::End => true,
        _ => false,
    };
    if nav {
        let effect = handle_navigation(state, code, height);
        return KeyOutcome { effect, stop: false };
    }
    let is_char = match code {
        KeyCode::Char(_) => true,
        _ => false,
    };
    let editing = !empty && match code {
        KeyCode::Backspace | KeyCode::Delete | KeyCode::Left | KeyCode::Right | KeyCode::Up | KeyCode::Down
        | KeyCode::Enter | KeyCode::Esc => true,
        _ => false,
    };
    if is_char || editing {
        let effect = handle_command_line(state, code);
        return KeyOutcome { effect, stop: false };
    }
    let fkey = match code {
        KeyCode::F(n) => 1 <= n && n <= 10,
        _ => false,
    };
    if fkey {
        let effect = handle_function_keys(state, code);
        return KeyOutcome { effect, stop: false };
    }
    handle_special_keys(state, code)
}

/// Typing a character on the command line and deleting it with Backspace
/// gives the line back, for any character: the cursor moves one byte on and
/// one byte back, which is the start of the typed character.
pub proof fn law_type_then_backspace(line: Seq<char>, cur: int, c: char)
    requires
        on_boundary(line, cur),
    ensures
        ({
            let typed = inserted(line, char_index(line, cur), c);
            &&& on_boundary(typed, (cur + 1) - 1)
            &&& removed(typed, char_index(typed, (cur + 1) - 1)) == line
        }),
{
    let k = char_index(line, cur);
    let typed = inserted(line, k, c);
    assert(typed.take(k) =~= line.take(k));
    cursor::lemma_char_index(typed, k);
    assert(removed(typed, k) =~= line);
}

} // verus!
