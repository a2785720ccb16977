//! What each shortcut action does to the application state, and what it
//! leaves to the interface: dialogs, directory changes, commands to run and
//! settings that live in the interface (view mode, sort order, hidden
//! panels).

use vstd::prelude::*;
use crate::fs::{FileEntry, FileType};
use crate::git::{self, trimmed};
use crate::operations::{OperationManager, operation_targets};
use crate::paths::{self, path_join, path_parent};
use crate::shortcuts::{Action, KeyCode, KeyModifiers, ShortcutManager, resolve};
use crate::cursor::{char_index, on_boundary};
use crate::keyboard::{inserted, removed, with_line};
use vstd::utf8::encode_utf8;
use crate::state::{AppState, FileOperation, PanelState, ActivePanel, SortMode, with_active};
use crate::text;

verus! {

/// How a panel lists its entries.
#[derive(Debug, Clone, Copy, PartialEq, Eq, Structural)]
pub enum ViewMode {
    Brief,
    Full,
    Wide,
}

/// What an action leaves to the interface.
#[derive(Debug)]
pub enum ActionEffect {
    /// Nothing beyond the state change.
    Done,
    /// The application ends.
    Exit,
    /// The application starts itself again and ends.
    Restart,
    /// The active panel is to show this directory.
    NavigateTo(String),
    /// The panels are to be redrawn.
    Redraw,
    /// Both panels are to be listed again from their directories.
    ReloadPanels,
    /// The active panel is to list its entries so.
    SetViewMode(ViewMode),
    /// The active panel's sort order is to flip and its entries re-sorted.
    ReverseSort,
    /// The panels are to be hidden or shown again.
    TogglePanels,
    /// The directory is to be saved as quick directory `slot`.
    SaveQuickDir { slot: u8, path: String },
    OpenSettings,
    OpenHelp,
    /// The command is to run in a shell, in the active panel's directory.
    RunCommand(String),
    /// A confirmation dialog asks before the pending operation runs.
    Confirm { title: String, message: String },
    /// The operation runs without asking.
    Execute(FileOperation),
    /// A dialog asks for a name to complete the pending operation.
    AskName { title: String, prompt: String, initial: String },
    /// A dialog asks for the name of a copy of `source` in `destination`.
    AskCopyAs { source: String, destination: String, initial: String },
    /// A dialog asks for the name of a new file in `directory`.
    AskNewFile { directory: String },
    /// A dialog asks for a filter for the active panel.
    AskFilter,
    /// The file is to be shown in the viewer.
    View(String),
    /// The file is to be opened with the editor, then the panels redrawn.
    Edit { editor: String, path: String },
}

/// The name `{:?}` gives an action.
pub open spec fn action_name(a: Action) -> Seq<char> {
    match a {
        Action::NavigateUp => "NavigateUp"@,
        Action::NavigateDown => "NavigateDown"@,
        Action::NavigateLeft => "NavigateLeft"@,
        Action::NavigateRight => "NavigateRight"@,
        Action::NavigatePageUp => "NavigatePageUp"@,
        Action::NavigatePageDown => "NavigatePageDown"@,
        Action::NavigateHome => "NavigateHome"@,
        Action::NavigateEnd => "NavigateEnd"@,
        Action::NavigateToParent => "NavigateToParent"@,
        Action::NavigateInto => "NavigateInto"@,
        Action::NavigateBack => "NavigateBack"@,
        Action::NavigateForward => "NavigateForward"@,
        Action::GoToRootDir => "GoToRootDir"@,
        Action::GoToDeepestDir => "GoToDeepestDir"@,
        Action::Copy => "Copy"@,
        Action::CopyAs => "CopyAs"@,
        Action::Move => "Move"@,
        Action::Delete => "Delete"@,
        Action::DeleteToTrash => "DeleteToTrash"@,
        Action::RestoreFromTrash => "RestoreFromTrash"@,
        Action::Rename => "Rename"@,
        Action::CreateFile => "CreateFile"@,
        Action::CreateDirectory => "CreateDirectory"@,
        Action::CopyToClipboard => "CopyToClipboard"@,
        Action::PasteFromClipboard => "PasteFromClipboard"@,
        Action::ForceDelete => "ForceDelete"@,
        Action::NewFile => "NewFile"@,
        Action::NewFolder => "NewFolder"@,
        Action::SelectItem => "SelectItem"@,
        Action::SelectAll => "SelectAll"@,
        Action::SelectNone => "SelectNone"@,
        Action::InvertSelection => "InvertSelection"@,
        Action::SelectPattern => "SelectPattern"@,
        Action::DeselectPattern => "DeselectPattern"@,
        Action::ViewFile => "ViewFile"@,
        Action::EditFile => "EditFile"@,
        Action::QuickView => "QuickView"@,
        Action::ToggleHidden => "ToggleHidden"@,
        Action::ToggleDetails => "ToggleDetails"@,
        Action::Refresh => "Refresh"@,
        Action::ToggleTreeView => "ToggleTreeView"@,
        Action::BriefView => "BriefView"@,
        Action::FullView => "FullView"@,
        Action::WideView => "WideView"@,
        Action::SortByName => "SortByName"@,
        Action::SortByExtension => "SortByExtension"@,
        Action::SortByDate => "SortByDate"@,
        Action::SortBySize => "SortBySize"@,
        Action::ReverseSort => "ReverseSort"@,
        Action::Search => "Search"@,
        Action::SearchNext => "SearchNext"@,
        Action::SearchPrevious => "SearchPrevious"@,
        Action::QuickFilter => "QuickFilter"@,
        Action::FindInFiles => "FindInFiles"@,
        Action::ClearFilter => "ClearFilter"@,
        Action::GoToLine => "GoToLine"@,
        Action::SwitchPanel => "SwitchPanel"@,
        Action::SwapPanels => "SwapPanels"@,
        Action::SyncPanels => "SyncPanels"@,
        Action::EqualPanels => "EqualPanels"@,
        Action::FocusLeftPanel => "FocusLeftPanel"@,
        Action::FocusRightPanel => "FocusRightPanel"@,
        Action::HidePanels => "HidePanels"@,
        Action::PanelMenu => "PanelMenu"@,
        Action::TreePanel => "TreePanel"@,
        Action::ChangeDriveLeft => "ChangeDriveLeft"@,
        Action::ChangeDriveRight => "ChangeDriveRight"@,
        Action::CommandPalette => "CommandPalette"@,
        Action::CommandLine => "CommandLine"@,
        Action::ExecuteCommand => "ExecuteCommand"@,
        Action::ShellCommand => "ShellCommand"@,
        Action::RunInTerminal => "RunInTerminal"@,
        Action::Autocomplete => "Autocomplete"@,
        Action::Help => "Help"@,
        Action::Settings => "Settings"@,
        Action::Quit => "Quit"@,
        Action::QuickExit => "QuickExit"@,
        Action::ShowShortcuts => "ShowShortcuts"@,
        Action::ToggleFullscreen => "ToggleFullscreen"@,
        Action::OpenSystemTerminal => "OpenSystemTerminal"@,
        Action::ContextHelp => "ContextHelp"@,
        Action::About => "About"@,
        Action::AddBookmark => "AddBookmark"@,
        Action::ShowBookmarks => "ShowBookmarks"@,
        Action::GoToBookmark(k) => "GoToBookmark("@ + text::decimal(k as nat) + ")"@,
        Action::ManageBookmarks => "ManageBookmarks"@,
        Action::GoToHome => "GoToHome"@,
        Action::GoToRoot => "GoToRoot"@,
        Action::GoToDesktop => "GoToDesktop"@,
        Action::GoToDocuments => "GoToDocuments"@,
        Action::GoToDownloads => "GoToDownloads"@,
        Action::GoToQuickDir(k) => "GoToQuickDir("@ + text::decimal(k as nat) + ")"@,
        Action::SetQuickDir(k) => "SetQuickDir("@ + text::decimal(k as nat) + ")"@,
        Action::ShowHistory => "ShowHistory"@,
        Action::HistoryBack => "HistoryBack"@,
        Action::HistoryForward => "HistoryForward"@,
        Action::ShowHistoryList => "ShowHistoryList"@,
        Action::Cut => "Cut"@,
        Action::Paste => "Paste"@,
        Action::OpenTerminal => "OpenTerminal"@,
        Action::OpenWith => "OpenWith"@,
        Action::Properties => "Properties"@,
        Action::CompareFiles => "CompareFiles"@,
        Action::SyncDirectories => "SyncDirectories"@,
        Action::FindDuplicates => "FindDuplicates"@,
        Action::EnterArchive => "EnterArchive"@,
        Action::ExtractArchive => "ExtractArchive"@,
        Action::CreateArchive => "CreateArchive"@,
        Action::SftpConnect => "SftpConnect"@,
        Action::FtpConnect => "FtpConnect"@,
        Action::Disconnect => "Disconnect"@,
        Action::CompareDirs => "CompareDirs"@,
        Action::CalculateSize => "CalculateSize"@,
        Action::MultiRename => "MultiRename"@,
        Action::StartMacroRecord => "StartMacroRecord"@,
        Action::PlayMacro => "PlayMacro"@,
        Action::ManageMacros => "ManageMacros"@,
        Action::VimEnterNormal => "VimEnterNormal"@,
        Action::VimEnterInsert => "VimEnterInsert"@,
        Action::VimEnterVisual => "VimEnterVisual"@,
        Action::VimEnterCommand => "VimEnterCommand"@,
        Action::VimYank => "VimYank"@,
        Action::VimPaste => "VimPaste"@,
        Action::VimDelete => "VimDelete"@,
        Action::VimUndo => "VimUndo"@,
        Action::VimRedo => "VimRedo"@,
        Action::VimSearch => "VimSearch"@,
        Action::VimGoToTop => "VimGoToTop"@,
        Action::VimGoToBottom => "VimGoToBottom"@,
        Action::VimGoToLine => "VimGoToLine"@,
        Action::VimMark => "VimMark"@,
        Action::VimGoToMark => "VimGoToMark"@,
    }
}

/// The name `{:?}` gives an action.
pub fn action_name_text(a: Action) -> (r: String)
    ensures
        r@ == action_name(a),
{
    match a {
        Action::NavigateUp => String::from_str("NavigateUp"),
        Action::NavigateDown => String::from_str("NavigateDown"),
        Action::NavigateLeft => String::from_str("NavigateLeft"),
        Action::NavigateRight => String::from_str("NavigateRight"),
        Action::NavigatePageUp => String::from_str("NavigatePageUp"),
        Action::NavigatePageDown => String::from_str("NavigatePageDown"),
        Action::NavigateHome => String::from_str("NavigateHome"),
        Action::NavigateEnd => String::from_str("NavigateEnd"),
        Action::NavigateToParent => String::from_str("NavigateToParent"),
        Action::NavigateInto => String::from_str("NavigateInto"),
        Action::NavigateBack => String::from_str("NavigateBack"),
        Action::NavigateForward => String::from_str("NavigateForward"),
        Action::GoToRootDir => String::from_str("GoToRootDir"),
        Action::GoToDeepestDir => String::from_str("GoToDeepestDir"),
        Action::Copy => String::from_str("Copy"),
        Action::CopyAs => String::from_str("CopyAs"),
        Action::Move => String::from_str("Move"),
        Action::Delete => String::from_str("Delete"),
        Action::DeleteToTrash => String::from_str("DeleteToTrash"),
        Action::RestoreFromTrash => String::from_str("RestoreFromTrash"),
        Action::Rename => String::from_str("Rename"),
        Action::CreateFile => String::from_str("CreateFile"),
        Action::CreateDirectory => String::from_str("CreateDirectory"),
        Action::CopyToClipboard => String::from_str("CopyToClipboard"),
        Action::PasteFromClipboard => String::from_str("PasteFromClipboard"),
        Action::ForceDelete => String::from_str("ForceDelete"),
        Action::NewFile => String::from_str("NewFile"),
        Action::NewFolder => String::from_str("NewFolder"),
        Action::SelectItem => String::from_str("SelectItem"),
        Action::SelectAll => String::from_str("SelectAll"),
        Action::SelectNone => String::from_str("SelectNone"),
        Action::InvertSelection => String::from_str("InvertSelection"),
        Action::SelectPattern => String::from_str("SelectPattern"),
        Action::DeselectPattern => String::from_str("DeselectPattern"),
        Action::ViewFile => String::from_str("ViewFile"),
        Action::EditFile => String::from_str("EditFile"),
        Action::QuickView => String::from_str("QuickView"),
        Action::ToggleHidden => String::from_str("ToggleHidden"),
        Action::ToggleDetails => String::from_str("ToggleDetails"),
        Action::Refresh => String::from_str("Refresh"),
        Action::ToggleTreeView => String::from_str("ToggleTreeView"),
        Action::BriefView => String::from_str("BriefView"),
        Action::FullView => String::from_str("FullView"),
        Action::WideView => String::from_str("WideView"),
        Action::SortByName => String::from_str("SortByName"),
        Action::SortByExtension => String::from_str("SortByExtension"),
        Action::SortByDate => String::from_str("SortByDate"),
        Action::SortBySize => String::from_str("SortBySize"),
        Action::ReverseSort => String::from_str("ReverseSort"),
        Action::Search => String::from_str("Search"),
        Action::SearchNext => String::from_str("SearchNext"),
        Action::SearchPrevious => String::from_str("SearchPrevious"),
        Action::QuickFilter => String::from_str("QuickFilter"),
        Action::FindInFiles => String::from_str("FindInFiles"),
        Action::ClearFilter => String::from_str("ClearFilter"),
        Action::GoToLine => String::from_str("GoToLine"),
        Action::SwitchPanel => String::from_str("SwitchPanel"),
        Action::SwapPanels => String::from_str("SwapPanels"),
        Action::SyncPanels => String::from_str("SyncPanels"),
        Action::EqualPanels => String::from_str("EqualPanels"),
        Action::FocusLeftPanel => String::from_str("FocusLeftPanel"),
        Action::FocusRightPanel => String::from_str("FocusRightPanel"),
        Action::HidePanels => String::from_str("HidePanels"),
        Action::PanelMenu => String::from_str("PanelMenu"),
        Action::TreePanel => String::from_str("TreePanel"),
        Action::ChangeDriveLeft => String::from_str("ChangeDriveLeft"),
        Action::ChangeDriveRight => String::from_str("ChangeDriveRight"),
        Action::CommandPalette => String::from_str("CommandPalette"),
        Action::CommandLine => String::from_str("CommandLine"),
        Action::ExecuteCommand => String::from_str("ExecuteCommand"),
        Action::ShellCommand => String::from_str("ShellCommand"),
        Action::RunInTerminal => String::from_str("RunInTerminal"),
        Action::Autocomplete => String::from_str("Autocomplete"),
        Action::Help => String::from_str("Help"),
        Action::Settings => String::from_str("Settings"),
        Action::Quit => String::from_str("Quit"),
        Action::QuickExit => String::from_str("QuickExit"),
        Action::ShowShortcuts => String::from_str("ShowShortcuts"),
        Action::ToggleFullscreen => String::from_str("ToggleFullscreen"),
        Action::OpenSystemTerminal => String::from_str("OpenSystemTerminal"),
        Action::ContextHelp => String::from_str("ContextHelp"),
        Action::About => String::from_str("About"),
        Action::AddBookmark => String::from_str("AddBookmark"),
        Action::ShowBookmarks => String::from_str("ShowBookmarks"),
        Action::GoToBookmark(k) => {
            let mut s = String::from_str("GoToBookmark(");
            s.append(text::decimal_string(k as u64).as_str());
            s.append(")");
            s
        },
        Action::ManageBookmarks => String::from_str("ManageBookmarks"),
        Action::GoToHome => String::from_str("GoToHome"),
        Action::GoToRoot => String::from_str("GoToRoot"),
        Action::GoToDesktop => String::from_str("GoToDesktop"),
        Action::GoToDocuments => String::from_str("GoToDocuments"),
        Action::GoToDownloads => String::from_str("GoToDownloads"),
        Action::GoToQuickDir(k) => {
            let mut s = String::from_str("GoToQuickDir(");
            s.append(text::decimal_string(k as u64).as_str());
            s.append(")");
            s
        },
        Action::SetQuickDir(k) => {
            let mut s = String::from_str("SetQuickDir(");
            s.append(text::decimal_string(k as u64).as_str());
            s.append(")");
            s
        },
        Action::ShowHistory => String::from_str("ShowHistory"),
        Action::HistoryBack => String::from_str("HistoryBack"),
        Action::HistoryForward => String::from_str("HistoryForward"),
        Action::ShowHistoryList => String::from_str("ShowHistoryList"),
        Action::Cut => String::from_str("Cut"),
        Action::Paste => String::from_str("Paste"),
        Action::OpenTerminal => String::from_str("OpenTerminal"),
        Action::OpenWith => String::from_str("OpenWith"),
        Action::Properties => String::from_str("Properties"),
        Action::CompareFiles => String::from_str("CompareFiles"),
        Action::SyncDirectories => String::from_str("SyncDirectories"),
        Action::FindDuplicates => String::from_str("FindDuplicates"),
        Action::EnterArchive => String::from_str("EnterArchive"),
        Action::ExtractArchive => String::from_str("ExtractArchive"),
        Action::CreateArchive => String::from_str("CreateArchive"),
        Action::SftpConnect => String::from_str("SftpConnect"),
        Action::FtpConnect => String::from_str("FtpConnect"),
        Action::Disconnect => String::from_str("Disconnect"),
        Action::CompareDirs => String::from_str("CompareDirs"),
        Action::CalculateSize => String::from_str("CalculateSize"),
        Action::MultiRename => String::from_str("MultiRename"),
        Action::StartMacroRecord => String::from_str("StartMacroRecord"),
        Action::PlayMacro => String::from_str("PlayMacro"),
        Action::ManageMacros => String::from_str("ManageMacros"),
        Action::VimEnterNormal => String::from_str("VimEnterNormal"),
        Action::VimEnterInsert => String::from_str("VimEnterInsert"),
        Action::VimEnterVisual => String::from_str("VimEnterVisual"),
        Action::VimEnterCommand => String::from_str("VimEnterCommand"),
        Action::VimYank => String::from_str("VimYank"),
        Action::VimPaste => String::from_str("VimPaste"),
        Action::VimDelete => String::from_str("VimDelete"),
        Action::VimUndo => String::from_str("VimUndo"),
        Action::VimRedo => String::from_str("VimRedo"),
        Action::VimSearch => String::from_str("VimSearch"),
        Action::VimGoToTop => String::from_str("VimGoToTop"),
        Action::VimGoToBottom => String::from_str("VimGoToBottom"),
        Action::VimGoToLine => String::from_str("VimGoToLine"),
        Action::VimMark => String::from_str("VimMark"),
        Action::VimGoToMark => String::from_str("VimGoToMark"),
    }
}

/// What running the command line leaves to the interface: `exit`, `quit`
/// and `q` end the application, `restart` restarts it, `cd <dir>` changes
/// to the directory (relative to `current_dir` unless it starts with `/`),
/// and anything else runs in a shell.
pub open spec fn command_outcome(line: Seq<char>, current_dir: Seq<char>, r: ActionEffect) -> bool {
    let t = trimmed(line);
    if t == "exit"@ || t == "quit"@ || t == "q"@ {
        r is Exit
    } else if t == "restart"@ {
        r is Restart
    } else if let Some(d) = crate::shell::cd_destination(line, current_dir) {
        r matches ActionEffect::NavigateTo(x) && x@ == d
    } else {
        r matches ActionEffect::RunCommand(c) && c@ == line
    }
}

/// Runs the command line: it goes to the history and the line is cleared,
/// then `command_outcome` says what is left to the interface.
pub fn handle_command_execution(state: &mut AppState) -> (r: ActionEffect)
    ensures
        command_outcome(old(state).command_line@, old(state).active().current_dir@, r),
        final(state).command_history@ == old(state).command_history@.push(old(state).command_line),
        final(state).command_line@.len() == 0,
        *final(state) == (AppState {
            command_history: final(state).command_history,
            command_line: final(state).command_line,
            command_cursor: 0,
            ..*old(state)
        }),
{
    let command = state.command_line.clone();
    state.command_history.push(command.clone());
    state.command_line = String::new();
    state.command_cursor = 0;
    let t = git::trim(command.as_str());
    if text::str_eq(t.as_str(), "exit") || text::str_eq(t.as_str(), "quit") || text::str_eq(t.as_str(), "q") {
        return ActionEffect::Exit;
    }
    if text::str_eq(t.as_str(), "restart") {
        return ActionEffect::Restart;
    }
    let current = state.active_panel().current_dir.clone();
    match crate::shell::cd_path(command.as_str(), current.as_str()) {
        Some(d) => ActionEffect::NavigateTo(d),
        None => ActionEffect::RunCommand(command),
    }
}

/// The status message of an action that is only reported, if it is one.
pub open spec fn report_of(a: Action) -> Option<Seq<char>> {
    match a {
        Action::FindInFiles => Some("Find in files not yet implemented"@),
        Action::GoToLine => Some("Go to line not yet implemented"@),
        Action::ToggleTreeView => Some("Tree view not yet implemented"@),
        Action::PanelMenu => Some("Panel menu not yet implemented"@),
        Action::TreePanel => Some("Tree panel not yet implemented"@),
        Action::ChangeDriveLeft => Some("Change drive not yet implemented"@),
        Action::ChangeDriveRight => Some("Change drive not yet implemented"@),
        Action::ManageBookmarks => Some("Bookmark management not yet implemented"@),
        Action::EnterArchive => Some("Entering archives not yet implemented"@),
        Action::ExtractArchive => Some("Extracting archives not yet implemented"@),
        Action::CreateArchive => Some("Creating archives not yet implemented"@),
        Action::SftpConnect => Some("SFTP connection not yet implemented"@),
        Action::FtpConnect => Some("FTP connection not yet implemented"@),
        Action::Disconnect => Some("Disconnect not yet implemented"@),
        Action::CompareDirs => Some("Directory comparison not yet implemented"@),
        Action::CalculateSize => Some("Directory size calculation not yet implemented"@),
        Action::Properties => Some("File properties not yet implemented"@),
        Action::ShowShortcuts => Some("Show shortcuts not yet implemented"@),
        Action::ToggleFullscreen => Some("Toggle fullscreen not yet implemented"@),
        Action::OpenSystemTerminal => Some("Open system terminal not yet implemented"@),
        Action::ContextHelp => Some("Context help not yet implemented"@),
        Action::About => Some("About not yet implemented"@),
        Action::StartMacroRecord => Some("Macro recording not yet implemented"@),
        Action::PlayMacro => Some("Macro playback not yet implemented"@),
        Action::ManageMacros => Some("Macro management not yet implemented"@),
        Action::ShellCommand => Some("Shell command not yet implemented"@),
        Action::RunInTerminal => Some("Run in terminal not yet implemented"@),
        Action::Autocomplete => Some("Autocomplete not yet implemented"@),
        _ => None,
    }
}

fn report_text(a: Action) -> (r: Option<String>)
    ensures
        match report_of(a) {
            Some(m) => r matches Some(t) && t@ == m,
            None => r is None,
        },
{
    let m = match a {
        Action::FindInFiles => "Find in files not yet implemented",
        Action::GoToLine => "Go to line not yet implemented",
        Action::ToggleTreeView => "Tree view not yet implemented",
        Action::PanelMenu => "Panel menu not yet implemented",
        Action::TreePanel => "Tree panel not yet implemented",
        Action::ChangeDriveLeft => "Change drive not yet implemented",
        Action::ChangeDriveRight => "Change drive not yet implemented",
        Action::ManageBookmarks => "Bookmark management not yet implemented",
        Action::EnterArchive => "Entering archives not yet implemented",
        Action::ExtractArchive => "Extracting archives not yet implemented",
        Action::CreateArchive => "Creating archives not yet implemented",
        Action::SftpConnect => "SFTP connection not yet implemented",
        Action::FtpConnect => "FTP connection not yet implemented",
        Action::Disconnect => "Disconnect not yet implemented",
        Action::CompareDirs => "Directory comparison not yet implemented",
        Action::CalculateSize => "Directory size calculation not yet implemented",
        Action::Properties => "File properties not yet implemented",
        Action::ShowShortcuts => "Show shortcuts not yet implemented",
        Action::ToggleFullscreen => "Toggle fullscreen not yet implemented",
        Action::OpenSystemTerminal => "Open system terminal not yet implemented",
        Action::ContextHelp => "Context help not yet implemented",
        Action::About => "About not yet implemented",
        Action::StartMacroRecord => "Macro recording not yet implemented",
        Action::PlayMacro => "Macro playback not yet implemented",
        Action::ManageMacros => "Macro management not yet implemented",
        Action::ShellCommand => "Shell command not yet implemented",
        Action::RunInTerminal => "Run in terminal not yet implemented",
        Action::Autocomplete => "Autocomplete not yet implemented",
        _ => {
            return None;
        },
    };
    Some(String::from_str(m))
}

/// The panel scrolled after a move of its cursor, in a terminal of the
/// given height (unknown height: no scrolling).
pub open spec fn scrolled(p: PanelState, height: Option<u16>) -> PanelState {
    match height {
        Some(h) => PanelState {
            view_offset: crate::state::view_offset_after(p.selected_index as int, p.view_offset as int, h - 5) as usize,
            ..p
        },
        None => p,
    }
}

/// What scrolling a panel demands: a terminal of at least five rows, and
/// offsets that fit in a `usize`.
pub open spec fn can_scroll(p: PanelState, height: Option<u16>) -> bool {
    match height {
        Some(h) => {
            &&& h >= 5
            &&& p.view_offset + 3 <= usize::MAX
            &&& p.selected_index + 4 <= usize::MAX
            &&& (p.selected_index >= p.view_offset + 3 ==> p.view_offset + (h - 5) <= usize::MAX && p.view_offset
                + (h - 5) >= 3)
        },
        None => true,
    }
}

/// The cursor one entry up.
pub open spec fn moved_up(p: PanelState) -> PanelState {
    PanelState { selected_index: if p.selected_index > 0 { (p.selected_index - 1) as usize } else { 0 }, ..p }
}

/// The cursor one entry down (it stays on the last entry).
pub open spec fn moved_down(p: PanelState) -> PanelState {
    PanelState {
        selected_index: if p.selected_index + 1 < p.visible().len() {
            (p.selected_index + 1) as usize
        } else {
            p.selected_index
        },
        ..p
    }
}

/// The marks after marking every entry of a panel but `..`, in order (marks
/// already there are added again).
pub open spec fn marks_with_entries(m: Seq<Seq<char>>, es: Seq<FileEntry>) -> Seq<Seq<char>>
    decreases es.len(),
{
    if es.len() == 0 {
        m
    } else {
        let prev = marks_with_entries(m, es.drop_last());
        if es.last().name@ == crate::state::dotdot() {
            prev
        } else {
            prev.push(es.last().path@)
        }
    }
}

/// The directory a navigation into the entry under the cursor goes to: a
/// directory's path, or the parent directory for `..`.
pub open spec fn into_target(p: PanelState) -> Option<Seq<char>> {
    match p.current_entry_spec() {
        Some(e) => if e.file_type == FileType::Directory {
            if e.name@ == crate::state::dotdot() {
                path_parent(p.current_dir@)
            } else {
                Some(e.path@)
            }
        } else {
            None
        },
        None => None,
    }
}

/// The navigation an optional target asks for.
pub open spec fn navigates(target: Option<Seq<char>>, r: ActionEffect) -> bool {
    match target {
        Some(d) => r matches ActionEffect::NavigateTo(x) && x@ == d,
        None => r is Done,
    }
}

/// A copy or move request on the selected files (not `..`): with
/// confirmation turned on, the operation waits and a dialog asks; else it
/// runs at once.
pub open spec fn transfer_requested(
    s: AppState,
    t: AppState,
    r: ActionEffect,
    is_move: bool,
    confirm: bool,
    title: Seq<char>,
    question: Seq<char>,
) -> bool {
    match operation_targets(s.active()) {
        Some(src) => {
            let op_ok = |op: FileOperation|
                if is_move {
                    op matches FileOperation::Move { sources, destination } && sources@ == src && destination
                        == s.inactive().current_dir
                } else {
                    op matches FileOperation::Copy { sources, destination } && sources@ == src && destination
                        == s.inactive().current_dir
                };
            if confirm {
                &&& t == (AppState { pending_operation: t.pending_operation, ..s })
                &&& t.pending_operation matches Some(op) && op_ok(op)
                &&& r matches ActionEffect::Confirm { title: a, message: b } && a@ == title && b@ == question
            } else {
                t == s && (r matches ActionEffect::Execute(op) && op_ok(op))
            }
        },
        None => t == s && r is Done,
    }
}

/// A delete request on the selected files (not `..`), asked first when
/// delete confirmation is on.
pub open spec fn delete_requested(s: AppState, t: AppState, r: ActionEffect) -> bool {
    let confirm = s.config_manager.current().general.confirm_delete;
    match operation_targets(s.active()) {
        Some(src) => if confirm {
            &&& t == (AppState { pending_operation: t.pending_operation, ..s })
            &&& t.pending_operation matches Some(FileOperation::Delete { targets }) && targets@ == src
            &&& r matches ActionEffect::Confirm { title, message } && title@ == "Delete Files"@ && message@
                == "Confirm delete operation? This cannot be undone!"@
        } else {
            t == s && (r matches ActionEffect::Execute(FileOperation::Delete { targets }) && targets@ == src)
        },
        None => t == s && r is Done,
    }
}

/// The entry under the cursor, unless it is `..`.
pub open spec fn named_entry(p: PanelState) -> Option<crate::fs::FileEntry> {
    match p.current_entry_spec() {
        Some(e) => if e.name@ != crate::state::dotdot() {
            Some(e)
        } else {
            None
        },
        None => None,
    }
}

/// The regular file under the cursor.
pub open spec fn current_file(p: PanelState) -> Option<Seq<char>> {
    match p.current_entry_spec() {
        Some(e) => if e.file_type == FileType::File {
            Some(e.path@)
        } else {
            None
        },
        None => None,
    }
}

/// The panel re-sorted by `mode`: the same entries, in order.
pub open spec fn resorted(p: PanelState, mode: SortMode, q: PanelState) -> bool {
    &&& q == (PanelState { sort_mode: mode, entries: q.entries, filtered_entries: q.filtered_entries, ..p })
    &&& q.entries@.to_multiset() == p.entries@.to_multiset()
    &&& crate::state::sorted_adjacent(q.entries@, mode)
    &&& (p.filter is Some ==> q.filtered_entries@.to_multiset() == p.filtered_entries@.to_multiset()
        && crate::state::sorted_adjacent(q.filtered_entries@, mode))
    &&& (p.filter is None ==> q.filtered_entries == p.filtered_entries)
}

/// Whether `t` and `r` are the state and effect after action `a` on state
/// `s`, in a terminal `height` rows high (when known).
pub open spec fn action_done(a: Action, s: AppState, t: AppState, height: Option<u16>, r: ActionEffect) -> bool {
    let p = s.active();
    let general = s.config_manager.current().general;
    match a {
        Action::NavigateUp => t == with_active(s, scrolled(moved_up(p), height)) && r is Done,
        Action::NavigateDown => t == with_active(s, scrolled(moved_down(p), height)) && r is Done,
        Action::NavigateToParent => t == s && navigates(path_parent(p.current_dir@), r),
        Action::NavigateInto => t == s && navigates(into_target(p), r),
        Action::SwitchPanel => t == (AppState {
            active_panel: match s.active_panel {
                ActivePanel::Left => ActivePanel::Right,
                ActivePanel::Right => ActivePanel::Left,
            },
            ..s
        }) && r is Done,
        Action::Copy => transfer_requested(
            s,
            t,
            r,
            false,
            general.confirm_operations,
            "Copy Files"@,
            "Confirm copy operation?"@,
        ),
        Action::Move => transfer_requested(
            s,
            t,
            r,
            true,
            general.confirm_operations,
            "Move Files"@,
            "Confirm move operation?"@,
        ),
        Action::Delete => delete_requested(s, t, r),
        Action::CopyAs => t == s && match named_entry(p) {
            Some(e) => r matches ActionEffect::AskCopyAs { source, destination, initial } && source == e.path
                && destination == s.inactive().current_dir && initial == e.name,
            None => r is Done,
        },
        Action::CreateDirectory => {
            &&& t == (AppState { pending_operation: t.pending_operation, ..s })
            &&& t.pending_operation matches Some(FileOperation::CreateDir { path }) && path == p.current_dir
            &&& r matches ActionEffect::AskName { title, prompt, initial } && title@ == "Create Directory"@
                && prompt@ == "Enter directory name:"@ && initial@.len() == 0
        },
        Action::Rename => match named_entry(p) {
            Some(e) => {
                &&& t == (AppState { pending_operation: t.pending_operation, ..s })
                &&& t.pending_operation matches Some(FileOperation::Rename { old_path, new_name }) && old_path
                    == e.path && new_name@.len() == 0
                &&& r matches ActionEffect::AskName { title, prompt, initial } && title@ == "Rename"@ && prompt@
                    == "Enter new name:"@ && initial == e.name
            },
            None => t == s && r is Done,
        },
        Action::NewFile => t == s && (r matches ActionEffect::AskNewFile { directory } && directory
            == p.current_dir),
        Action::ViewFile => t == s && match current_file(p) {
            Some(f) => r matches ActionEffect::View(x) && x@ == f,
            None => r is Done,
        },
        Action::EditFile => t == s && match current_file(p) {
            Some(f) => r matches ActionEffect::Edit { editor, path } && path@ == f && editor == general.editor,
            None => r is Done,
        },
        Action::SortByName => resorted(p, SortMode::Name, t.active()) && t == with_active(s, t.active())
            && r is Redraw,
        Action::SortByExtension => resorted(p, SortMode::Extension, t.active()) && t == with_active(s, t.active())
            && r is Redraw,
        Action::SortByDate => resorted(p, SortMode::Modified, t.active()) && t == with_active(s, t.active())
            && r is Redraw,
        Action::SortBySize => resorted(p, SortMode::Size, t.active()) && t == with_active(s, t.active())
            && r is Redraw,
        Action::ReverseSort => t == s && r is ReverseSort,
        Action::Refresh => {
            &&& t == (AppState { status_message: t.status_message, ..s })
            &&& t.status_message matches Some(m) && m@ == "Panels refreshed"@
            &&& r is ReloadPanels
        },
        Action::QuickFilter => t == s && r is AskFilter,
        Action::BriefView => t == s && r == ActionEffect::SetViewMode(ViewMode::Brief),
        Action::FullView => t == s && r == ActionEffect::SetViewMode(ViewMode::Full),
        Action::WideView => t == s && r == ActionEffect::SetViewMode(ViewMode::Wide),
        Action::FocusLeftPanel => t == (AppState { active_panel: ActivePanel::Left, ..s }) && r is Done,
        Action::FocusRightPanel => t == (AppState { active_panel: ActivePanel::Right, ..s }) && r is Done,
        Action::HidePanels => t == s && r is TogglePanels,
        Action::SetQuickDir(n) => t == s && (r matches ActionEffect::SaveQuickDir { slot, path } && slot == n
            && path == p.current_dir),
        Action::SelectItem => t == with_active(s, t.active()) && t.active() == (PanelState {
            marked_files: t.active().marked_files,
            ..p
        }) && match p.current_entry_spec() {
            Some(e) => t.active().marks() == crate::state::toggle_marks(p.marks(), e.path@),
            None => t.active().marks() == p.marks(),
        } && r is Done,
        Action::SelectAll => t == with_active(s, t.active()) && t.active() == (PanelState {
            marked_files: t.active().marked_files,
            ..p
        }) && t.active().marks() == marks_with_entries(p.marks(), p.entries@) && r is Done,
        Action::SelectNone => t == with_active(s, t.active()) && t.active() == (PanelState {
            marked_files: t.active().marked_files,
            ..p
        }) && t.active().marked_files@.len() == 0 && r is Done,
        Action::Quit | Action::QuickExit => t == s && r is Exit,
        Action::Settings => t == s && r is OpenSettings,
        Action::Help => t == s && r is OpenHelp,
        Action::CommandLine => t == s && r is Done,
        Action::ExecuteCommand => if s.command_line@.len() > 0 {
            &&& command_outcome(s.command_line@, p.current_dir@, r)
            &&& t.command_history@ == s.command_history@.push(s.command_line)
            &&& t.command_line@.len() == 0
            &&& t == (AppState {
                command_history: t.command_history,
                command_line: t.command_line,
                command_cursor: 0,
                ..s
            })
        } else {
            t == s && r is Done
        },
        _ => {
            &&& t == (AppState { status_message: t.status_message, ..s })
            &&& t.status_message matches Some(m) && m@ == match report_of(a) {
                Some(x) => x,
                None => "Action not yet implemented: "@ + action_name(a),
            }
            &&& r is Done
        },
    }
}

fn move_cursor(state: &mut AppState, up: bool, height: Option<u16>)
    requires
        can_scroll(if up { moved_up(old(state).active()) } else { moved_down(old(state).active()) }, height),
    ensures
        *final(state) == with_active(
            *old(state),
            scrolled(if up { moved_up(old(state).active()) } else { moved_down(old(state).active()) }, height),
        ),
{
    let panel = state.active_panel_mut();
    if up {
        panel.move_selection_up();
    } else {
        panel.move_selection_down();
    }
    match height {
        Some(h) => panel.update_view_offset(h as usize - 5),
        None => {},
    }
}

fn push_entry_marks(panel: &mut PanelState)
    ensures
        final(panel).marks() == marks_with_entries(old(panel).marks(), old(panel).entries@),
        *final(panel) == (PanelState { marked_files: final(panel).marked_files, ..*old(panel) }),
{
    let mut i: usize = 0;
    while i < panel.entries.len()
        invariant
            i <= panel.entries@.len(),
            *panel == (PanelState { marked_files: panel.marked_files, ..*old(panel) }),
            panel.marks() == marks_with_entries(old(panel).marks(), panel.entries@.subrange(0, i as int)),
        decreases panel.entries@.len() - i,
    {
        assert(panel.entries@.subrange(0, i + 1).drop_last() =~= panel.entries@.subrange(0, i as int));
        if !crate::state::is_dotdot(&panel.entries[i].name) {
            let path = panel.entries[i].path.clone();
            panel.marked_files.push(path);
            assert(panel.marks() =~= marks_with_entries(old(panel).marks(), panel.entries@.subrange(0, i as int)).push(
                panel.entries@[i as int].path@,
            ));
        }
        i = i + 1;
    }
    assert(panel.entries@.subrange(0, i as int) =~= panel.entries@);
}

fn resort(state: &mut AppState, mode: SortMode)
    ensures
        resorted(old(state).active(), mode, final(state).active()),
        *final(state) == with_active(*old(state), final(state).active()),
{
    let panel = state.active_panel_mut();
    panel.sort_mode = mode;
    panel.sort_entries();
}

fn navigate_target(target: Option<String>) -> (r: ActionEffect)
    ensures
        navigates(
            match target {
                Some(d) => Some(d@),
                None => None,
            },
            r,
        ),
{
    match target {
        Some(d) => ActionEffect::NavigateTo(d),
        None => ActionEffect::Done,
    }
}

fn confirm(title: &str, message: &str) -> (r: ActionEffect)
    ensures
        r matches ActionEffect::Confirm { title: a, message: b } && a@ == title@ && b@ == message@,
{
    ActionEffect::Confirm { title: String::from_str(title), message: String::from_str(message) }
}

/// Carries out a shortcut action: moves, focus, sorting, marks and reports
/// change the state; file commands prepare or ask; everything else is left
/// to the interface (see `action_done`). `height` is the terminal's height,
/// when known.
pub fn handle_action(state: &mut AppState, action: Action, height: Option<u16>) -> (r: ActionEffect)
    requires
        action == Action::NavigateUp ==> can_scroll(moved_up(old(state).active()), height),
        action == Action::NavigateDown ==> can_scroll(moved_down(old(state).active()), height),
    ensures
        action_done(action, *old(state), *final(state), height, r),
{
    match action {
        Action::NavigateUp => {
            move_cursor(state, true, height);
            ActionEffect::Done
        },
        Action::NavigateDown => {
            move_cursor(state, false, height);
            ActionEffect::Done
        },
        Action::NavigateToParent => navigate_target(paths::parent(state.active_panel().current_dir.as_str())),
        Action::NavigateInto => {
            let panel = state.active_panel();
            let target = match panel.current_entry() {
                Some(e) => if e.file_type == FileType::Directory {
                    if crate::state::is_dotdot(&e.name) {
                        paths::parent(panel.current_dir.as_str())
                    } else {
                        Some(e.path.clone())
                    }
                } else {
                    None
                },
                None => None,
            };
            navigate_target(target)
        },
        Action::SwitchPanel => {
            state.active_panel = match state.active_panel {
                ActivePanel::Left => ActivePanel::Right,
                ActivePanel::Right => ActivePanel::Left,
            };
            ActionEffect::Done
        },
        Action::Copy | Action::Move => {
            let op = if action == Action::Copy {
                OperationManager::prepare_copy(state)
            } else {
                OperationManager::prepare_move(state)
            };
            match op {
                Some(op) => {
                    if state.config_manager.general().confirm_operations {
                        state.pending_operation = Some(op);
                        if action == Action::Copy {
                            confirm("Copy Files", "Confirm copy operation?")
                        } else {
                            confirm("Move Files", "Confirm move operation?")
                        }
                    } else {
                        ActionEffect::Execute(op)
                    }
                },
                None => ActionEffect::Done,
            }
        },
        Action::Delete => {
            match OperationManager::prepare_delete(state) {
                Some(op) => {
                    if state.config_manager.general().confirm_delete {
                        state.pending_operation = Some(op);
                        confirm("Delete Files", "Confirm delete operation? This cannot be undone!")
                    } else {
                        ActionEffect::Execute(op)
                    }
                },
                None => ActionEffect::Done,
            }
        },
        Action::CopyAs => {
            match state.active_panel().current_entry() {
                Some(e) => if !crate::state::is_dotdot(&e.name) {
                    ActionEffect::AskCopyAs {
                        source: e.path.clone(),
                        destination: state.inactive_panel().current_dir.clone(),
                        initial: e.name.clone(),
                    }
                } else {
                    ActionEffect::Done
                },
                None => ActionEffect::Done,
            }
        },
        Action::CreateDirectory => {
            let path = state.active_panel().current_dir.clone();
            state.pending_operation = Some(FileOperation::CreateDir { path });
            ActionEffect::AskName {
                title: String::from_str("Create Directory"),
                prompt: String::from_str("Enter directory name:"),
                initial: String::new(),
            }
        },
        Action::Rename => {
            let found = match state.active_panel().current_entry() {
                Some(e) => if !crate::state::is_dotdot(&e.name) {
                    Some((e.path.clone(), e.name.clone()))
                } else {
                    None
                },
                None => None,
            };
            match found {
                Some((old_path, name)) => {
                    state.pending_operation = Some(FileOperation::Rename { old_path, new_name: String::new() });
                    ActionEffect::AskName {
                        title: String::from_str("Rename"),
                        prompt: String::from_str("Enter new name:"),
                        initial: name,
                    }
                },
                None => ActionEffect::Done,
            }
        },
        Action::NewFile => ActionEffect::AskNewFile { directory: state.active_panel().current_dir.clone() },
        Action::ViewFile | Action::EditFile => {
            let file = match state.active_panel().current_entry() {
                Some(e) => if e.file_type == FileType::File {
                    Some(e.path.clone())
                } else {
                    None
                },
                None => None,
            };
            match file {
                Some(path) => if action == Action::ViewFile {
                    ActionEffect::View(path)
                } else {
                    ActionEffect::Edit { editor: state.config_manager.general().editor.clone(), path }
                },
                None => ActionEffect::Done,
            }
        },
        Action::SortByName => {
            resort(state, SortMode::Name);
            ActionEffect::Redraw
        },
        Action::SortByExtension => {
            resort(state, SortMode::Extension);
            ActionEffect::Redraw
        },
        Action::SortByDate => {
            resort(state, SortMode::Modified);
            ActionEffect::Redraw
        },
        Action::SortBySize => {
            resort(state, SortMode::Size);
            ActionEffect::Redraw
        },
        Action::ReverseSort => ActionEffect::ReverseSort,
        Action::Refresh => {
            state.set_status_message(String::from_str("Panels refreshed"));
            ActionEffect::ReloadPanels
        },
        Action::QuickFilter => ActionEffect::AskFilter,
        Action::BriefView => ActionEffect::SetViewMode(ViewMode::Brief),
        Action::FullView => ActionEffect::SetViewMode(ViewMode::Full),
        Action::WideView => ActionEffect::SetViewMode(ViewMode::Wide),
        Action::FocusLeftPanel => {
            state.active_panel = ActivePanel::Left;
            ActionEffect::Done
        },
        Action::FocusRightPanel => {
            state.active_panel = ActivePanel::Right;
            ActionEffect::Done
        },
        Action::HidePanels => ActionEffect::TogglePanels,
        Action::SetQuickDir(n) => ActionEffect::SaveQuickDir {
            slot: n,
            path: state.active_panel().current_dir.clone(),
        },
        Action::SelectItem => {
            state.active_panel_mut().toggle_mark_current();
            ActionEffect::Done
        },
        Action::SelectAll => {
            push_entry_marks(state.active_panel_mut());
            ActionEffect::Done
        },
        Action::SelectNone => {
            state.active_panel_mut().clear_marks();
            ActionEffect::Done
        },
        Action::Quit | Action::QuickExit => ActionEffect::Exit,
        Action::Settings => ActionEffect::OpenSettings,
        Action::Help => ActionEffect::OpenHelp,
        Action::CommandLine => ActionEffect::Done,
        Action::ExecuteCommand => {
            if state.command_line.as_str().unicode_len() > 0 {
                handle_command_execution(state)
            } else {
                ActionEffect::Done
            }
        },
        _ => {
            let message = match report_text(action) {
                Some(m) => m,
                None => {
                    let mut m = String::from_str("Action not yet implemented: ");
                    m.append(action_name_text(action).as_str());
                    m
                },
            };
            state.set_status_message(message);
            ActionEffect::Done
        },
    }
}

/// Enter in the confirmation dialog: the pending operation is dropped, and
/// handed out to run when the dialog's answer was yes.
pub fn confirm_dialog_enter(state: &mut AppState, accepted: bool) -> (r: Option<FileOperation>)
    ensures
        r == (if accepted { old(state).pending_operation } else { None }),
        *final(state) == (AppState { pending_operation: None, ..*old(state) }),
{
    let op = state.pending_operation.take();
    if accepted {
        op
    } else {
        None
    }
}

/// Enter in a name dialog: the pending operation is dropped; a directory
/// to create gets the name joined to its path, a rename gets the name as
/// the new name, and the completed operation is handed out to run.
pub fn input_dialog_enter(state: &mut AppState, value: &str) -> (r: Option<FileOperation>)
    ensures
        *final(state) == (AppState { pending_operation: None, ..*old(state) }),
        match old(state).pending_operation {
            Some(FileOperation::CreateDir { path }) => r matches Some(FileOperation::CreateDir { path: q }) && q@
                == path_join(path@, value@),
            Some(FileOperation::Rename { old_path, .. }) => r matches Some(
                FileOperation::Rename { old_path: o, new_name },
            ) && o == old_path && new_name@ == value@,
            _ => r is None,
        },
{
    match state.pending_operation.take() {
        Some(FileOperation::CreateDir { path }) => Some(
            FileOperation::CreateDir { path: paths::join(path.as_str(), value) },
        ),
        Some(FileOperation::Rename { old_path, .. }) => Some(
            FileOperation::Rename { old_path, new_name: String::from_str(value) },
        ),
        _ => None,
    }
}

/// What a key that no shortcut takes does: a character is typed at the
/// cursor, Backspace deletes before it (on a non-empty line), Esc clears
/// the line; other keys do nothing.
pub open spec fn unbound_key_done(s: AppState, t: AppState, code: KeyCode) -> bool {
    let line = s.command_line@;
    let cur = s.command_cursor;
    match code {
        KeyCode::Char(c) => {
            &&& t == with_line(s, t)
            &&& t.command_line@ == inserted(line, char_index(line, cur as int), c)
            &&& t.command_cursor == cur + 1
        },
        KeyCode::Backspace => if cur > 0 && line.len() > 0 {
            &&& t == with_line(s, t)
            &&& t.command_line@ == removed(line, char_index(line, cur - 1))
            &&& t.command_cursor == cur - 1
        } else {
            t == s
        },
        KeyCode::Esc => t == with_line(s, t) && t.command_line@.len() == 0 && t.command_cursor == 0,
        _ => t == s,
    }
}

/// Handles a key when no dialog is open: a key with a shortcut runs its
/// action (see `handle_action`), any other key edits the command line (see
/// `unbound_key_done`).
pub fn handle_input(
    state: &mut AppState,
    shortcuts: &ShortcutManager,
    code: KeyCode,
    mods: KeyModifiers,
    height: Option<u16>,
) -> (r: ActionEffect)
    requires
        shortcuts.wf(),
        match resolve(shortcuts.custom(), shortcuts.mode(), shortcuts.standard(), code, mods) {
            Some(a) => (a == Action::NavigateUp ==> can_scroll(moved_up(old(state).active()), height)) && (a
                == Action::NavigateDown ==> can_scroll(moved_down(old(state).active()), height)),
            None => match code {
                KeyCode::Char(_) => on_boundary(old(state).command_line@, old(state).command_cursor as int)
                    && old(state).command_cursor < usize::MAX,
                KeyCode::Backspace => old(state).command_cursor > 0 && old(state).command_line@.len() > 0
                    ==> on_boundary(old(state).command_line@, old(state).command_cursor - 1)
                    && old(state).command_cursor - 1 < encode_utf8(old(state).command_line@).len(),
                _ => true,
            },
        },
    ensures
        match resolve(shortcuts.custom(), shortcuts.mode(), shortcuts.standard(), code, mods) {
            Some(a) => action_done(a, *old(state), *final(state), height, r),
            None => r is Done && unbound_key_done(*old(state), *final(state), code),
        },
{
    match shortcuts.get_action(code, mods) {
        Some(action) => handle_action(state, action, height),
        None => {
            match code {
                KeyCode::Char(c) => crate::keyboard::insert_char(state, c),
                KeyCode::Backspace => {
                    if !state.command_line.as_str().is_empty() {
                        crate::keyboard::delete_before_cursor(state);
                    }
                },
                KeyCode::Esc => {
                    state.command_line = String::new();
                    state.command_cursor = 0;
                },
                _ => {},
            }
            ActionEffect::Done
        },
    }
}

} // verus!
