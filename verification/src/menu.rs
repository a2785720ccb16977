//! File commands that ask before they act: copy, move and delete requests
//! on the selected files, and the context menu that offers them together
//! with viewing, editing, renaming and the properties of an entry.

use vstd::prelude::*;
use crate::fs::{FileEntry, FileType};
use crate::shortcuts::KeyCode;
use crate::state::{AppState, FileOperation, PanelState};
use crate::text;

verus! {

/// The files a command on the active panel applies to: the marked files, or
/// else the entry under the cursor.
pub open spec fn selected_files(p: PanelState) -> Seq<String> {
    if p.marked_files@.len() > 0 {
        p.marked_files@
    } else {
        match p.current_entry_spec() {
            Some(e) => seq![e.path],
            None => Seq::empty(),
        }
    }
}

/// The files a command on the active panel applies to.
pub fn get_selected_files(state: &AppState) -> (r: Vec<String>)
    ensures
        r@ == selected_files(state.active()),
{
    let panel = state.active_panel();
    if panel.marked_files.len() > 0 {
        crate::config::clone_strings(&panel.marked_files)
    } else {
        match panel.current_entry() {
            Some(e) => {
                let mut v = Vec::new();
                v.push(e.path.clone());
                assert(v@ =~= seq![e.path]);
                v
            },
            None => Vec::new(),
        }
    }
}

/// The question asked before a copy or move.
pub open spec fn transfer_question(verb: Seq<char>, n: nat, dest: Seq<char>) -> Seq<char> {
    verb + " "@ + text::decimal(n) + " file(s) to "@ + dest + "? (Y/N)"@
}

/// The question asked before a deletion.
pub open spec fn delete_question(n: nat) -> Seq<char> {
    "Delete "@ + text::decimal(n) + " file(s)? (Y/N)"@
}

fn transfer_text(verb: &str, n: usize, dest: &str) -> (r: String)
    ensures
        r@ == transfer_question(verb@, n as nat, dest@),
{
    let mut r = String::from_str(verb);
    r.append(" ");
    r.append(text::decimal_string(n as u64).as_str());
    r.append(" file(s) to ");
    r.append(dest);
    r.append("? (Y/N)");
    r
}

/// The state with a pending operation and a status message set.
pub open spec fn asking(s: AppState, t: AppState) -> AppState {
    AppState { pending_operation: t.pending_operation, status_message: t.status_message, ..s }
}

/// Whether `t` is `s` after asking to copy the selected files into the
/// other panel's directory (no change with nothing selected).
pub open spec fn copy_asked(s: AppState, t: AppState) -> bool {
    let sel = selected_files(s.active());
    let dest = s.inactive().current_dir;
    if sel.len() > 0 {
        &&& t == asking(s, t)
        &&& t.pending_operation matches Some(FileOperation::Copy { sources, destination }) && sources@ == sel
            && destination == dest
        &&& t.status_message matches Some(m) && m@ == transfer_question("Copy"@, sel.len(), dest@)
    } else {
        t == s
    }
}

/// Whether `t` is `s` after asking to move the selected files into the
/// other panel's directory (no change with nothing selected).
pub open spec fn move_asked(s: AppState, t: AppState) -> bool {
    let sel = selected_files(s.active());
    let dest = s.inactive().current_dir;
    if sel.len() > 0 {
        &&& t == asking(s, t)
        &&& t.pending_operation matches Some(FileOperation::Move { sources, destination }) && sources@ == sel
            && destination == dest
        &&& t.status_message matches Some(m) && m@ == transfer_question("Move"@, sel.len(), dest@)
    } else {
        t == s
    }
}

/// Whether `t` is `s` after asking to delete the selected files (no change
/// with nothing selected).
pub open spec fn delete_asked(s: AppState, t: AppState) -> bool {
    let sel = selected_files(s.active());
    if sel.len() > 0 {
        &&& t == asking(s, t)
        &&& t.pending_operation matches Some(FileOperation::Delete { targets }) && targets@ == sel
        &&& t.status_message matches Some(m) && m@ == delete_question(sel.len())
    } else {
        t == s
    }
}

/// Asks to copy the selected files into the other panel's directory; with
/// nothing selected nothing changes.
pub fn copy_files(state: &mut AppState)
    ensures
        copy_asked(*old(state), *final(state)),
{
    let sources = get_selected_files(state);
    if sources.len() > 0 {
        let dest = state.inactive_panel().current_dir.clone();
        let message = transfer_text("Copy", sources.len(), dest.as_str());
        state.pending_operation = Some(FileOperation::Copy { sources, destination: dest });
        state.set_status_message(message);
    }
}

/// Asks to move the selected files into the other panel's directory; with
/// nothing selected nothing changes.
pub fn move_files(state: &mut AppState)
    ensures
        move_asked(*old(state), *final(state)),
{
    let sources = get_selected_files(state);
    if sources.len() > 0 {
        let dest = state.inactive_panel().current_dir.clone();
        let message = transfer_text("Move", sources.len(), dest.as_str());
        state.pending_operation = Some(FileOperation::Move { sources, destination: dest });
        state.set_status_message(message);
    }
}

/// Asks to delete the selected files; with nothing selected nothing changes.
pub fn delete_files(state: &mut AppState)
    ensures
        delete_asked(*old(state), *final(state)),
{
    let targets = get_selected_files(state);
    if targets.len() > 0 {
        let mut message = String::from_str("Delete ");
        message.append(text::decimal_string(targets.len() as u64).as_str());
        message.append(" file(s)? (Y/N)");
        state.pending_operation = Some(FileOperation::Delete { targets });
        state.set_status_message(message);
    }
}

/// The entries of the context menu.
#[derive(Debug, Clone, Copy, PartialEq, Eq, Structural)]
pub enum ContextMenuAction {
    ViewFile,
    EditFile,
    Copy,
    Cut,
    Delete,
    Rename,
    Properties,
}

/// An open context menu: its entries and the highlighted one.
#[derive(Debug)]
pub struct ContextMenu {
    pub items: Vec<ContextMenuAction>,
    pub selected_index: usize,
}

impl ContextMenu {
    /// The highlighted entry, if the highlight is on one.
    pub open spec fn get_selected_action_spec(&self) -> Option<ContextMenuAction> {
        if self.selected_index < self.items@.len() {
            Some(self.items@[self.selected_index as int])
        } else {
            None
        }
    }

    /// The highlighted entry, if the highlight is on one.
    pub fn get_selected_action(&self) -> (r: Option<ContextMenuAction>)
        ensures
            r == self.get_selected_action_spec(),
    {
        if self.selected_index < self.items.len() {
            Some(self.items[self.selected_index])
        } else {
            None
        }
    }
}

/// What a context menu command leaves to the interface.
#[derive(Debug)]
pub enum MenuEffect {
    Nothing,
    /// The file is to be shown in the viewer.
    ViewFile(String),
    /// The file is to be opened in the editor.
    EditFile(String),
    /// The dialog asking for a new name is to open.
    RenameDialog,
}

/// How `{:?}` shows an entry's modification time.
pub open spec fn modified_text(m: Option<i64>) -> Seq<char> {
    match m {
        Some(s) => if crate::fs::utc_timestamp_in_range(s) {
            "Some("@ + crate::fs::utc_debug_text(s) + ")"@
        } else {
            "None"@
        },
        None => "None"@,
    }
}

/// The properties of an entry, one per line.
pub open spec fn properties_text(e: FileEntry) -> Seq<char> {
    "Name: "@ + e.name@ + "\nSize: "@ + e.size_display@ + "\nModified: "@ + modified_text(e.modified)
        + "\nPermissions: "@ + e.permissions@
}

fn properties(e: &FileEntry) -> (r: String)
    ensures
        r@ == properties_text(*e),
{
    let mut r = String::from_str("Name: ");
    r.append(e.name.as_str());
    r.append("\nSize: ");
    r.append(e.size_display.as_str());
    r.append("\nModified: ");
    match e.modified {
        Some(s) => match crate::fs::utc_debug(s) {
            Some(t) => {
                r.append("Some(");
                r.append(t.as_str());
                r.append(")");
            },
            None => r.append("None"),
        },
        None => r.append("None"),
    }
    r.append("\nPermissions: ");
    r.append(e.permissions.as_str());
    r
}

/// Whether the entry under the cursor of the active panel is a regular file
/// at `path`.
pub open spec fn current_file_is(s: AppState, path: String) -> bool {
    s.active().current_entry_spec() matches Some(e) && e.file_type == FileType::File && e.path == path
}

/// Whether the active panel has a regular file under its cursor.
pub open spec fn current_is_file(s: AppState) -> bool {
    s.active().current_entry_spec() matches Some(e) && e.file_type == FileType::File
}

/// What a context menu command does: `s` is the state before, `t` the
/// state after, `r` what is left to the interface.
pub open spec fn menu_action_done(action: ContextMenuAction, s: AppState, t: AppState, r: MenuEffect) -> bool {
    match action {
        ContextMenuAction::ViewFile => t == s && if current_is_file(s) {
            r matches MenuEffect::ViewFile(p) && current_file_is(s, p)
        } else {
            r is Nothing
        },
        ContextMenuAction::EditFile => t == s && if current_is_file(s) {
            r matches MenuEffect::EditFile(p) && current_file_is(s, p)
        } else {
            r is Nothing
        },
        ContextMenuAction::Copy => copy_asked(s, t) && r is Nothing,
        ContextMenuAction::Cut => move_asked(s, t) && r is Nothing,
        ContextMenuAction::Delete => delete_asked(s, t) && r is Nothing,
        ContextMenuAction::Rename => t == s && if s.active().current_entry_spec() is Some {
            r is RenameDialog
        } else {
            r is Nothing
        },
        ContextMenuAction::Properties => r is Nothing && match s.active().current_entry_spec() {
            Some(e) => (t.status_message matches Some(m) && m@ == properties_text(e)) && t == (AppState {
                status_message: t.status_message,
                ..s
            }),
            None => t == s,
        },
    }
}

/// Runs a context menu command on the active panel: viewing and editing
/// apply to a regular file under the cursor, copy, cut and delete ask as
/// `copy_files`, `move_files` and `delete_files` do, renaming asks for a
/// name, and the properties of the entry under the cursor go to the status
/// line.
pub fn execute_context_menu_action(state: &mut AppState, action: ContextMenuAction) -> (r: MenuEffect)
    ensures
        menu_action_done(action, *old(state), *final(state), r),
{
    match action {
        ContextMenuAction::ViewFile | ContextMenuAction::EditFile => {
            let path = match state.active_panel().current_entry() {
                Some(e) => if e.file_type == FileType::File {
                    Some(e.path.clone())
                } else {
                    None
                },
                None => None,
            };
            match path {
                Some(p) => if action == ContextMenuAction::ViewFile {
                    MenuEffect::ViewFile(p)
                } else {
                    MenuEffect::EditFile(p)
                },
                None => MenuEffect::Nothing,
            }
        },
        ContextMenuAction::Copy => {
            copy_files(state);
            MenuEffect::Nothing
        },
        ContextMenuAction::Cut => {
            move_files(state);
            MenuEffect::Nothing
        },
        ContextMenuAction::Delete => {
            delete_files(state);
            MenuEffect::Nothing
        },
        ContextMenuAction::Rename => {
            if state.active_panel().current_entry().is_some() {
                MenuEffect::RenameDialog
            } else {
                MenuEffect::Nothing
            }
        },
        ContextMenuAction::Properties => {
            let info = match state.active_panel().current_entry() {
                Some(e) => Some(properties(e)),
                None => None,
            };
            if let Some(m) = info {
                state.set_status_message(m);
            }
            MenuEffect::Nothing
        },
    }
}

/// Handles a key while the context menu is open: Esc closes it, Enter runs
/// the highlighted command and closes it, the arrows move the highlight
/// within the entries.
pub fn handle_context_menu_input(menu: &mut Option<ContextMenu>, state: &mut AppState, key: KeyCode) -> (r:
    MenuEffect)
    requires
        key == KeyCode::Down ==> (*old(menu) matches Some(m) ==> m.items@.len() > 0),
    ensures
        match key {
            KeyCode::Esc => *final(menu) is None && *final(state) == *old(state) && r is Nothing,
            KeyCode::Enter => *final(menu) is None && match *old(menu) {
                Some(m) => match m.get_selected_action_spec() {
                    Some(a) => menu_action_done(a, *old(state), *final(state), r),
                    None => *final(state) == *old(state) && r is Nothing,
                },
                None => *final(state) == *old(state) && r is Nothing,
            },
            KeyCode::Up => *final(state) == *old(state) && r is Nothing && match *old(menu) {
                Some(m) => *final(menu) matches Some(n) && n.items == m.items && n.selected_index == (if m.selected_index
                    > 0 {
                    (m.selected_index - 1) as usize
                } else {
                    m.selected_index
                }),
                None => *final(menu) is None,
            },
            KeyCode::Down => *final(state) == *old(state) && r is Nothing && match *old(menu) {
                Some(m) => *final(menu) matches Some(n) && n.items == m.items && n.selected_index == (if m.selected_index
                    < m.items@.len() - 1 {
                    (m.selected_index + 1) as usize
                } else {
                    m.selected_index
                }),
                None => *final(menu) is None,
            },
            _ => *final(menu) == *old(menu) && *final(state) == *old(state) && r is Nothing,
        },
{
    match key {
        KeyCode::Esc => {
            *menu = None;
            MenuEffect::Nothing
        },
        KeyCode::Enter => {
            let action = match menu {
                Some(m) => m.get_selected_action(),
                None => None,
            };
            let r = match action {
                Some(a) => execute_context_menu_action(state, a),
                None => MenuEffect::Nothing,
            };
            *menu = None;
            r
        },
        KeyCode::Up => {
            if let Some(m) = menu {
                if m.selected_index > 0 {
                    m.selected_index = m.selected_index - 1;
                }
            }
            MenuEffect::Nothing
        },
        KeyCode::Down => {
            if let Some(m) = menu {
                if m.selected_index < m.items.len() - 1 {
                    m.selected_index = m.selected_index + 1;
                }
            }
            MenuEffect::Nothing
        },
        _ => MenuEffect::Nothing,
    }
}

} // verus!
