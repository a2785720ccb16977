//! Keyboard shortcuts: key bindings, the actions they trigger, the default
//! keymap, user overrides and the modal (vim-like) bindings.

use vstd::prelude::*;
use crate::text;
use crate::cache;
use crate::state;
use crate::state::Order;

verus! {

/// A key as the terminal reports it.
#[derive(Clone, Copy, Debug, PartialEq, Eq, Structural)]
pub enum KeyCode {
    F(u8),
    Char(char),
    Enter,
    Esc,
    Backspace,
    Tab,
    Delete,
    Insert,
    Home,
    End,
    PageUp,
    PageDown,
    Up,
    Down,
    Left,
    Right,
    /// Any other key.
    Other,
}

/// The modifier keys held with a key.
#[derive(Clone, Copy, Debug, PartialEq, Eq, Structural)]
pub struct KeyModifiers {
    pub shift: bool,
    pub control: bool,
    pub alt: bool,
    pub super_key: bool,
    pub hyper: bool,
    pub meta: bool,
}

impl KeyModifiers {
    /// No modifier held.
    pub open spec fn is_none(self) -> bool {
        !self.shift && !self.control && !self.alt && !self.super_key && !self.hyper && !self.meta
    }

    /// Shift and nothing else held.
    pub open spec fn is_shift_only(self) -> bool {
        self.shift && !self.control && !self.alt && !self.super_key && !self.hyper && !self.meta
    }

    /// Control and nothing else held.
    pub open spec fn is_control_only(self) -> bool {
        !self.shift && self.control && !self.alt && !self.super_key && !self.hyper && !self.meta
    }

    /// No modifier.
    pub fn none() -> (r: Self)
        ensures
            r.is_none(),
    {
        KeyModifiers { shift: false, control: false, alt: false, super_key: false, hyper: false, meta: false }
    }
}

/// A key binding: the key's name and the names of its modifiers, in the order
/// Ctrl, Shift, Alt.
#[derive(Debug, PartialEq, Eq, Hash)]
pub struct KeyBinding {
    pub code: String,
    pub modifiers: Vec<String>,
}

impl View for KeyBinding {
    type V = (Seq<char>, Seq<Seq<char>>);

    open spec fn view(&self) -> (Seq<char>, Seq<Seq<char>>) {
        (self.code@, cache::strings_view(self.modifiers@))
    }
}

/// The name of a key.
pub open spec fn code_name(code: KeyCode) -> Seq<char> {
    match code {
        KeyCode::F(n) => "F"@ + text::decimal(n as nat),
        KeyCode::Char(c) => seq![c],
        KeyCode::Enter => "Enter"@,
        KeyCode::Esc => "Esc"@,
        KeyCode::Backspace => "Backspace"@,
        KeyCode::Tab => "Tab"@,
        KeyCode::Delete => "Delete"@,
        KeyCode::Insert => "Insert"@,
        KeyCode::Home => "Home"@,
        KeyCode::End => "End"@,
        KeyCode::PageUp => "PageUp"@,
        KeyCode::PageDown => "PageDown"@,
        KeyCode::Up => "Up"@,
        KeyCode::Down => "Down"@,
        KeyCode::Left => "Left"@,
        KeyCode::Right => "Right"@,
        KeyCode::Other => "Unknown"@,
    }
}

/// The names of the held modifiers among Ctrl, Shift and Alt, in that order.
pub open spec fn modifier_names(m: KeyModifiers) -> Seq<Seq<char>> {
    (if m.control { seq!["Ctrl"@] } else { Seq::empty() }) + (if m.shift {
        seq!["Shift"@]
    } else {
        Seq::empty()
    }) + (if m.alt { seq!["Alt"@] } else { Seq::empty() })
}

/// The binding of a key pressed with modifiers.
pub open spec fn binding_of(code: KeyCode, m: KeyModifiers) -> (Seq<char>, Seq<Seq<char>>) {
    (code_name(code), modifier_names(m))
}

/// Modifier names joined with `+`.
pub open spec fn join_plus(s: Seq<Seq<char>>) -> Seq<char>
    decreases s.len(),
{
    if s.len() == 0 {
        Seq::empty()
    } else if s.len() == 1 {
        s[0]
    } else {
        join_plus(s.drop_last()) + "+"@ + s.last()
    }
}

/// How a binding is shown: the key alone, or the modifiers and the key joined
/// with `+`.
pub open spec fn display(b: (Seq<char>, Seq<Seq<char>>)) -> Seq<char> {
    if b.1.len() == 0 {
        b.0
    } else {
        join_plus(b.1) + "+"@ + b.0
    }
}

/// The name of a key, as a string.
fn key_name(code: KeyCode) -> (r: String)
    ensures
        r@ == code_name(code),
{
    match code {
        KeyCode::F(n) => {
            let mut s = String::from_str("F");
            let d = text::decimal_string(n as u64);
            s.append(d.as_str());
            s
        },
        KeyCode::Char(c) => {
            let mut s = String::new();
            text::push_char(&mut s, c);
            assert(s@ =~= seq![c]);
            s
        },
        KeyCode::Enter => String::from_str("Enter"),
        KeyCode::Esc => String::from_str("Esc"),
        KeyCode::Backspace => String::from_str("Backspace"),
        KeyCode::Tab => String::from_str("Tab"),
        KeyCode::Delete => String::from_str("Delete"),
        KeyCode::Insert => String::from_str("Insert"),
        KeyCode::Home => String::from_str("Home"),
        KeyCode::End => String::from_str("End"),
        KeyCode::PageUp => String::from_str("PageUp"),
        KeyCode::PageDown => String::from_str("PageDown"),
        KeyCode::Up => String::from_str("Up"),
        KeyCode::Down => String::from_str("Down"),
        KeyCode::Left => String::from_str("Left"),
        KeyCode::Right => String::from_str("Right"),
        KeyCode::Other => String::from_str("Unknown"),
    }
}

/// Whether two string vectors hold the same strings.
fn same_strings(a: &Vec<String>, b: &Vec<String>) -> (r: bool)
    ensures
        r == (cache::strings_view(a@) == cache::strings_view(b@)),
{
    if a.len() != b.len() {
        assert(cache::strings_view(a@).len() != cache::strings_view(b@).len());
        return false;
    }
    let mut i: usize = 0;
    while i < a.len()
        invariant
            a@.len() == b@.len(),
            i <= a@.len(),
            forall|j: int| 0 <= j < i ==> a@[j]@ == b@[j]@,
        decreases a@.len() - i,
    {
        if !text::str_eq(a[i].as_str(), b[i].as_str()) {
            assert(cache::strings_view(a@)[i as int] != cache::strings_view(b@)[i as int]);
            return false;
        }
        i = i + 1;
    }
    assert(cache::strings_view(a@) =~= cache::strings_view(b@));
    true
}

/// Whether two bindings are the same.
pub fn same_binding(a: &KeyBinding, b: &KeyBinding) -> (r: bool)
    ensures
        r == (a@ == b@),
{
    text::str_eq(a.code.as_str(), b.code.as_str()) && same_strings(&a.modifiers, &b.modifiers)
}

impl KeyBinding {
    /// The binding of a key pressed with modifiers.
    pub fn new(code: KeyCode, modifiers: KeyModifiers) -> (r: Self)
        ensures
            r@ == binding_of(code, modifiers),
    {
        let code_str = key_name(code);
        let mut modifier_vec: Vec<String> = Vec::new();
        if modifiers.control {
            modifier_vec.push(String::from_str("Ctrl"));
        }
        if modifiers.shift {
            modifier_vec.push(String::from_str("Shift"));
        }
        if modifiers.alt {
            modifier_vec.push(String::from_str("Alt"));
        }
        let r = KeyBinding { code: code_str, modifiers: modifier_vec };
        assert(cache::strings_view(r.modifiers@) =~= modifier_names(modifiers));
        r
    }

    /// Whether this binding is the one of the key pressed with the modifiers.
    pub fn matches(&self, code: KeyCode, modifiers: KeyModifiers) -> (r: bool)
        ensures
            r == (self@ == binding_of(code, modifiers)),
    {
        let binding = Self::new(code, modifiers);
        same_binding(self, &binding)
    }

    /// How the binding is shown, such as `Ctrl+Shift+n`.
    pub fn to_display_string(&self) -> (r: String)
        ensures
            r@ == display(self@),
    {
        let ghost mods = cache::strings_view(self.modifiers@);
        if self.modifiers.len() == 0 {
            return self.code.clone();
        }
        let mut s = self.modifiers[0].clone();
        assert(mods.subrange(0, 1) =~= seq![mods[0]]);
        let mut i: usize = 1;
        while i < self.modifiers.len()
            invariant
                mods == cache::strings_view(self.modifiers@),
                1 <= i <= self.modifiers@.len(),
                s@ == join_plus(mods.subrange(0, i as int)),
            decreases self.modifiers@.len() - i,
        {
            s.append("+");
            s.append(self.modifiers[i].as_str());
            assert(mods.subrange(0, i + 1).drop_last() =~= mods.subrange(0, i as int));
            i = i + 1;
        }
        assert(mods.subrange(0, i as int) =~= mods);
        s.append("+");
        s.append(self.code.as_str());
        s
    }
}

/// An action that a shortcut triggers.
#[derive(Clone, Copy, Debug, PartialEq, Eq, Structural)]
pub enum Action {
    // Navigation
    NavigateUp,
    NavigateDown,
    NavigateLeft,
    NavigateRight,
    NavigatePageUp,
    NavigatePageDown,
    NavigateHome,
    NavigateEnd,
    NavigateToParent,
    NavigateInto,
    NavigateBack,
    NavigateForward,
    GoToRootDir,
    GoToDeepestDir,
    // File operations
    Copy,
    CopyAs,
    Move,
    Delete,
    DeleteToTrash,
    RestoreFromTrash,
    Rename,
    CreateFile,
    CreateDirectory,
    CopyToClipboard,
    PasteFromClipboard,
    ForceDelete,
    NewFile,
    NewFolder,
    // Selection
    SelectItem,
    SelectAll,
    SelectNone,
    InvertSelection,
    SelectPattern,
    DeselectPattern,
    // View
    ViewFile,
    EditFile,
    QuickView,
    ToggleHidden,
    ToggleDetails,
    Refresh,
    ToggleTreeView,
    BriefView,
    FullView,
    WideView,
    // Sorting
    SortByName,
    SortByExtension,
    SortByDate,
    SortBySize,
    ReverseSort,
    // Search
    Search,
    SearchNext,
    SearchPrevious,
    QuickFilter,
    FindInFiles,
    ClearFilter,
    GoToLine,
    // Panels
    SwitchPanel,
    SwapPanels,
    SyncPanels,
    EqualPanels,
    FocusLeftPanel,
    FocusRightPanel,
    HidePanels,
    PanelMenu,
    TreePanel,
    ChangeDriveLeft,
    ChangeDriveRight,
    // Commands
    CommandPalette,
    CommandLine,
    ExecuteCommand,
    ShellCommand,
    RunInTerminal,
    Autocomplete,
    // System
    Help,
    Settings,
    Quit,
    QuickExit,
    ShowShortcuts,
    ToggleFullscreen,
    OpenSystemTerminal,
    ContextHelp,
    About,
    // Bookmarks
    AddBookmark,
    ShowBookmarks,
    /// Bookmark 1 to 9.
    GoToBookmark(u8),
    ManageBookmarks,
    // Quick directories
    GoToHome,
    GoToRoot,
    GoToDesktop,
    GoToDocuments,
    GoToDownloads,
    /// Quick directory 1 to 9.
    GoToQuickDir(u8),
    /// Quick directory 1 to 9.
    SetQuickDir(u8),
    // History
    ShowHistory,
    HistoryBack,
    HistoryForward,
    ShowHistoryList,
    // Clipboard
    Cut,
    Paste,
    // Advanced
    OpenTerminal,
    OpenWith,
    Properties,
    CompareFiles,
    SyncDirectories,
    FindDuplicates,
    EnterArchive,
    ExtractArchive,
    CreateArchive,
    SftpConnect,
    FtpConnect,
    Disconnect,
    CompareDirs,
    CalculateSize,
    MultiRename,
    // Macros
    StartMacroRecord,
    PlayMacro,
    ManageMacros,
    // Vim mode
    VimEnterNormal,
    VimEnterInsert,
    VimEnterVisual,
    VimEnterCommand,
    VimYank,
    VimPaste,
    VimDelete,
    VimUndo,
    VimRedo,
    VimSearch,
    VimGoToTop,
    VimGoToBottom,
    VimGoToLine,
    VimMark,
    VimGoToMark,
}

/// The mode of modal (vim-like) key handling.
#[derive(Clone, Copy, Debug, PartialEq, Eq, Structural)]
pub enum VimMode {
    Normal,
    Insert,
    Visual,
    Command,
}

/// A binding as values: the key's name and the modifier names.
pub type BindingView = (Seq<char>, Seq<Seq<char>>);

/// The view of a binding table.
pub open spec fn table_view(v: Seq<(KeyBinding, Action)>) -> Seq<(BindingView, Action)> {
    v.map_values(|p: (KeyBinding, Action)| (p.0@, p.1))
}

/// The table after each pair is inserted in turn, a later pair replacing an
/// earlier one with the same binding.
pub open spec fn insert_all(t: Seq<(BindingView, Action)>, pairs: Seq<(BindingView, Action)>) -> Seq<
    (BindingView, Action),
>
    decreases pairs.len(),
{
    if pairs.len() == 0 {
        t
    } else {
        cache::insert_key(insert_all(t, pairs.drop_last()), pairs.last().0, pairs.last().1)
    }
}

/// What a character typed without modifiers does in normal mode.
pub open spec fn normal_char_action(c: char) -> Option<Action> {
    if c == 'i' {
        Some(Action::VimEnterInsert)
    } else if c == 'v' {
        Some(Action::VimEnterVisual)
    } else if c == ':' {
        Some(Action::VimEnterCommand)
    } else if c == 'h' {
        Some(Action::NavigateLeft)
    } else if c == 'j' {
        Some(Action::NavigateDown)
    } else if c == 'k' {
        Some(Action::NavigateUp)
    } else if c == 'l' {
        Some(Action::NavigateRight)
    } else if c == 'g' {
        Some(Action::VimGoToTop)
    } else if c == 'y' {
        Some(Action::VimYank)
    } else if c == 'p' {
        Some(Action::VimPaste)
    } else if c == 'd' {
        Some(Action::VimDelete)
    } else if c == 'u' {
        Some(Action::VimUndo)
    } else if c == '/' {
        Some(Action::VimSearch)
    } else if c == 'n' {
        Some(Action::SearchNext)
    } else if c == 'm' {
        Some(Action::VimMark)
    } else if c == '\'' {
        Some(Action::VimGoToMark)
    } else if c == ' ' {
        Some(Action::SelectItem)
    } else {
        None
    }
}

/// What a character typed without modifiers does in visual mode.
pub open spec fn visual_char_action(c: char) -> Option<Action> {
    if c == 'y' {
        Some(Action::VimYank)
    } else if c == 'd' {
        Some(Action::VimDelete)
    } else if c == 'h' {
        Some(Action::NavigateLeft)
    } else if c == 'j' {
        Some(Action::NavigateDown)
    } else if c == 'k' {
        Some(Action::NavigateUp)
    } else if c == 'l' {
        Some(Action::NavigateRight)
    } else {
        None
    }
}

/// The modal binding of a key in a mode: Esc returns to normal mode from
/// every mode; normal mode moves with `hjkl` and edits with single letters
/// (`G` and `N` with Shift, redo with Ctrl+r); visual mode yanks, deletes and
/// moves; command mode runs the command on Enter.
pub open spec fn vim_action(mode: VimMode, code: KeyCode, m: KeyModifiers) -> Option<Action> {
    if code == KeyCode::Esc {
        Some(Action::VimEnterNormal)
    } else {
        match mode {
            VimMode::Normal => match code {
                KeyCode::Char(c) => if m.is_none() {
                    normal_char_action(c)
                } else if m.is_shift_only() && c == 'G' {
                    Some(Action::VimGoToBottom)
                } else if m.is_shift_only() && c == 'N' {
                    Some(Action::SearchPrevious)
                } else if m.is_control_only() && c == 'r' {
                    Some(Action::VimRedo)
                } else {
                    None
                },
                _ => None,
            },
            VimMode::Insert => None,
            VimMode::Visual => match code {
                KeyCode::Char(c) => if m.is_none() {
                    visual_char_action(c)
                } else {
                    None
                },
                _ => None,
            },
            VimMode::Command => if code == KeyCode::Enter {
                Some(Action::ExecuteCommand)
            } else {
                None
            },
        }
    }
}

/// What a key does: a user binding first, then the modal binding of the
/// current mode (where modal handling is on), then the default keymap.
pub open spec fn resolve(
    custom: Seq<(BindingView, Action)>,
    mode: Option<VimMode>,
    standard: Seq<(BindingView, Action)>,
    code: KeyCode,
    m: KeyModifiers,
) -> Option<Action> {
    let b = binding_of(code, m);
    match cache::lookup(custom, b) {
        Some(a) => Some(a),
        None => match mode {
            Some(vm) => match vim_action(vm, code, m) {
                Some(a) => Some(a),
                None => cache::lookup(standard, b),
            },
            None => cache::lookup(standard, b),
        },
    }
}

fn normal_char(c: char) -> (r: Option<Action>)
    ensures
        r == normal_char_action(c),
{
    if c == 'i' {
        Some(Action::VimEnterInsert)
    } else if c == 'v' {
        Some(Action::VimEnterVisual)
    } else if c == ':' {
        Some(Action::VimEnterCommand)
    } else if c == 'h' {
        Some(Action::NavigateLeft)
    } else if c == 'j' {
        Some(Action::NavigateDown)
    } else if c == 'k' {
        Some(Action::NavigateUp)
    } else if c == 'l' {
        Some(Action::NavigateRight)
    } else if c == 'g' {
        Some(Action::VimGoToTop)
    } else if c == 'y' {
        Some(Action::VimYank)
    } else if c == 'p' {
        Some(Action::VimPaste)
    } else if c == 'd' {
        Some(Action::VimDelete)
    } else if c == 'u' {
        Some(Action::VimUndo)
    } else if c == '/' {
        Some(Action::VimSearch)
    } else if c == 'n' {
        Some(Action::SearchNext)
    } else if c == 'm' {
        Some(Action::VimMark)
    } else if c == '\'' {
        Some(Action::VimGoToMark)
    } else if c == ' ' {
        Some(Action::SelectItem)
    } else {
        None
    }
}

fn visual_char(c: char) -> (r: Option<Action>)
    ensures
        r == visual_char_action(c),
{
    if c == 'y' {
        Some(Action::VimYank)
    } else if c == 'd' {
        Some(Action::VimDelete)
    } else if c == 'h' {
        Some(Action::NavigateLeft)
    } else if c == 'j' {
        Some(Action::NavigateDown)
    } else if c == 'k' {
        Some(Action::NavigateUp)
    } else if c == 'l' {
        Some(Action::NavigateRight)
    } else {
        None
    }
}

fn no_modifiers(m: KeyModifiers) -> (r: bool)
    ensures
        r == m.is_none(),
{
    !m.shift && !m.control && !m.alt && !m.super_key && !m.hyper && !m.meta
}

/// The position of a binding in a table.
fn find_binding(table: &Vec<(KeyBinding, Action)>, b: &KeyBinding) -> (r: Option<usize>)
    ensures
        match r {
            Some(i) => i < table@.len() && table_view(table@)[i as int].0 == b@,
            None => !cache::has_key(table_view(table@), b@),
        },
{
    let ghost tv = table_view(table@);
    let mut i: usize = 0;
    while i < table.len()
        invariant
            tv == table_view(table@),
            i <= table@.len(),
            forall|j: int| 0 <= j < i ==> tv[j].0 != b@,
        decreases table@.len() - i,
    {
        if same_binding(&table[i].0, b) {
            return Some(i);
        }
        i = i + 1;
    }
    assert forall|j: int| 0 <= j < tv.len() implies #[trigger] tv[j].0 != b@ by {}
    None
}

/// The action a table binds to a binding.
fn table_get(table: &Vec<(KeyBinding, Action)>, b: &KeyBinding) -> (r: Option<Action>)
    requires
        cache::distinct_keys(table_view(table@)),
    ensures
        r == cache::lookup(table_view(table@), b@),
{
    match find_binding(table, b) {
        Some(i) => {
            proof {
                cache::lemma_key_index(table_view(table@), b@, i as int);
            }
            Some(table[i].1)
        },
        None => None,
    }
}

/// Binds `b` to `a` in a table, in place of its former action.
fn table_insert(table: &mut Vec<(KeyBinding, Action)>, b: KeyBinding, a: Action)
    requires
        cache::distinct_keys(table_view(old(table)@)),
    ensures
        table_view(final(table)@) == cache::insert_key(table_view(old(table)@), b@, a),
        cache::distinct_keys(table_view(final(table)@)),
{
    proof {
        cache::lemma_insert_key(table_view(old(table)@), b@, a);
    }
    match find_binding(table, &b) {
        Some(i) => {
            proof {
                cache::lemma_key_index(table_view(table@), b@, i as int);
            }
            table[i] = (b, a);
            assert(table_view(table@) =~= cache::insert_key(table_view(old(table)@), b@, a));
        },
        None => {
            table.push((b, a));
            assert(table_view(table@) =~= cache::insert_key(table_view(old(table)@), b@, a));
        },
    }
}

/// Removes the binding `b` from a table.
fn table_remove(table: &mut Vec<(KeyBinding, Action)>, b: &KeyBinding)
    requires
        cache::distinct_keys(table_view(old(table)@)),
    ensures
        table_view(final(table)@) == cache::remove_key(table_view(old(table)@), b@),
        cache::distinct_keys(table_view(final(table)@)),
{
    proof {
        cache::lemma_remove_key(table_view(old(table)@), b@);
    }
    match find_binding(table, b) {
        Some(i) => {
            proof {
                cache::lemma_key_index(table_view(table@), b@, i as int);
            }
            table.remove(i);
            assert(table_view(table@) =~= cache::remove_key(table_view(old(table)@), b@));
        },
        None => {},
    }
}

impl Clone for KeyBinding {
    fn clone(&self) -> (r: Self)
        ensures
            r@ == self@,
    {
        KeyBinding { code: self.code.clone(), modifiers: crate::config::clone_strings(&self.modifiers) }
    }
}

/// Modifier names by number: none, Ctrl, Shift, Alt, Ctrl+Shift.
pub open spec fn mods_seq(m: u8) -> Seq<Seq<char>> {
    if m == 1 {
        seq!["Ctrl"@]
    } else if m == 2 {
        seq!["Shift"@]
    } else if m == 3 {
        seq!["Alt"@]
    } else if m == 4 {
        seq!["Ctrl"@, "Shift"@]
    } else {
        Seq::empty()
    }
}

/// A binding of a named key with modifiers given by number.
fn kb(code: &str, m: u8) -> (r: KeyBinding)
    ensures
        r@ == (code@, mods_seq(m)),
{
    let mut mods: Vec<String> = Vec::new();
    if m == 1 || m == 4 {
        mods.push(String::from_str("Ctrl"));
    }
    if m == 2 || m == 4 {
        mods.push(String::from_str("Shift"));
    }
    if m == 3 {
        mods.push(String::from_str("Alt"));
    }
    let r = KeyBinding { code: String::from_str(code), modifiers: mods };
    assert(cache::strings_view(r.modifiers@) =~= mods_seq(m));
    r
}

/// Default bindings: the function keys F1 to F12.
pub open spec fn function_defaults() -> Seq<(BindingView, Action)> {
    seq![
        (("F1"@, mods_seq(0)), Action::Help),
        (("F2"@, mods_seq(0)), Action::Rename),
        (("F3"@, mods_seq(0)), Action::ViewFile),
        (("F4"@, mods_seq(0)), Action::EditFile),
        (("F5"@, mods_seq(0)), Action::Copy),
        (("F6"@, mods_seq(0)), Action::Move),
        (("F7"@, mods_seq(0)), Action::CreateDirectory),
        (("F8"@, mods_seq(0)), Action::Delete),
        (("F9"@, mods_seq(0)), Action::Settings),
        (("F10"@, mods_seq(0)), Action::Quit),
        (("F11"@, mods_seq(0)), Action::ToggleFullscreen),
        (("F12"@, mods_seq(0)), Action::OpenSystemTerminal),
    ]
}

/// Default bindings: function keys with Shift or Alt.
pub open spec fn extended_function_defaults() -> Seq<(BindingView, Action)> {
    seq![
        (("F1"@, mods_seq(2)), Action::ContextHelp),
        (("F1"@, mods_seq(3)), Action::ChangeDriveLeft),
        (("F2"@, mods_seq(3)), Action::ChangeDriveRight),
        (("F3"@, mods_seq(2)), Action::SearchPrevious),
        (("F4"@, mods_seq(2)), Action::NewFile),
        (("F5"@, mods_seq(2)), Action::CopyAs),
        (("F6"@, mods_seq(2)), Action::Rename),
        (("F7"@, mods_seq(3)), Action::FindInFiles),
        (("F8"@, mods_seq(3)), Action::ShowHistory),
    ]
}

/// Default bindings: cursor movement and history.
pub open spec fn navigation_defaults() -> Seq<(BindingView, Action)> {
    seq![
        (("Up"@, mods_seq(0)), Action::NavigateUp),
        (("Down"@, mods_seq(0)), Action::NavigateDown),
        (("Left"@, mods_seq(0)), Action::NavigateToParent),
        (("Right"@, mods_seq(0)), Action::NavigateInto),
        (("Enter"@, mods_seq(0)), Action::NavigateInto),
        (("Backspace"@, mods_seq(0)), Action::NavigateToParent),
        (("Tab"@, mods_seq(0)), Action::SwitchPanel),
        (("PageUp"@, mods_seq(0)), Action::NavigatePageUp),
        (("PageDown"@, mods_seq(0)), Action::NavigatePageDown),
        (("Home"@, mods_seq(0)), Action::NavigateHome),
        (("End"@, mods_seq(0)), Action::NavigateEnd),
        (("PageUp"@, mods_seq(1)), Action::GoToRootDir),
        (("PageDown"@, mods_seq(1)), Action::GoToDeepestDir),
        (("Left"@, mods_seq(3)), Action::HistoryBack),
        (("Right"@, mods_seq(3)), Action::HistoryForward),
        (("Down"@, mods_seq(3)), Action::ShowHistoryList),
    ]
}

/// Default bindings: marking files.
pub open spec fn selection_defaults() -> Seq<(BindingView, Action)> {
    seq![
        (("Space"@, mods_seq(0)), Action::SelectItem),
        (("Insert"@, mods_seq(0)), Action::SelectItem),
        (("a"@, mods_seq(1)), Action::SelectAll),
        (("u"@, mods_seq(1)), Action::SelectNone),
        (("+"@, mods_seq(0)), Action::SelectPattern),
        (("-"@, mods_seq(0)), Action::DeselectPattern),
        (("*"@, mods_seq(0)), Action::InvertSelection),
    ]
}

/// Default bindings: clipboard, deleting and creating.
pub open spec fn file_operation_defaults() -> Seq<(BindingView, Action)> {
    seq![
        (("c"@, mods_seq(1)), Action::CopyToClipboard),
        (("x"@, mods_seq(1)), Action::Cut),
        (("v"@, mods_seq(1)), Action::PasteFromClipboard),
        (("Delete"@, mods_seq(0)), Action::Delete),
        (("Delete"@, mods_seq(2)), Action::ForceDelete),
        (("n"@, mods_seq(1)), Action::NewFile),
        (("n"@, mods_seq(4)), Action::NewFolder),
    ]
}

/// Default bindings: filtering and searching.
pub open spec fn search_defaults() -> Seq<(BindingView, Action)> {
    seq![
        (("f"@, mods_seq(1)), Action::QuickFilter),
        (("f"@, mods_seq(4)), Action::FindInFiles),
        (("/"@, mods_seq(0)), Action::QuickFilter),
        (("l"@, mods_seq(1)), Action::ClearFilter),
        (("g"@, mods_seq(1)), Action::GoToLine),
        (("n"@, mods_seq(4)), Action::SearchPrevious),
    ]
}

/// Default bindings: views and sorting.
pub open spec fn view_defaults() -> Seq<(BindingView, Action)> {
    seq![
        (("h"@, mods_seq(1)), Action::ToggleHidden),
        (("d"@, mods_seq(1)), Action::ToggleDetails),
        (("t"@, mods_seq(1)), Action::ToggleTreeView),
        (("1"@, mods_seq(1)), Action::BriefView),
        (("2"@, mods_seq(1)), Action::FullView),
        (("3"@, mods_seq(1)), Action::WideView),
        (("F3"@, mods_seq(1)), Action::SortByName),
        (("F4"@, mods_seq(1)), Action::SortByExtension),
        (("F5"@, mods_seq(1)), Action::SortByDate),
        (("F6"@, mods_seq(1)), Action::SortBySize),
        (("r"@, mods_seq(1)), Action::ReverseSort),
    ]
}

/// Default bindings: panel operations.
pub open spec fn panel_defaults() -> Seq<(BindingView, Action)> {
    seq![
        (("u"@, mods_seq(1)), Action::SwapPanels),
        (("s"@, mods_seq(1)), Action::SyncPanels),
        (("="@, mods_seq(1)), Action::EqualPanels),
        (("l"@, mods_seq(4)), Action::FocusLeftPanel),
        (("r"@, mods_seq(4)), Action::FocusRightPanel),
        (("o"@, mods_seq(1)), Action::HidePanels),
        (("p"@, mods_seq(1)), Action::PanelMenu),
        (("F10"@, mods_seq(3)), Action::TreePanel),
    ]
}

/// Default bindings: the home and root directories.
pub open spec fn quick_access_defaults() -> Seq<(BindingView, Action)> {
    seq![
        (("0"@, mods_seq(1)), Action::GoToHome),
        (("/"@, mods_seq(1)), Action::GoToRoot),
    ]
}

/// Default bindings: adding and showing bookmarks.
pub open spec fn bookmark_defaults() -> Seq<(BindingView, Action)> {
    seq![
        (("d"@, mods_seq(1)), Action::AddBookmark),
        (("b"@, mods_seq(1)), Action::ShowBookmarks),
    ]
}

/// Default bindings: managing bookmarks and the command line.
pub open spec fn command_defaults() -> Seq<(BindingView, Action)> {
    seq![
        (("b"@, mods_seq(4)), Action::ManageBookmarks),
        ((":"@, mods_seq(0)), Action::CommandLine),
        (("!"@, mods_seq(0)), Action::ShellCommand),
        (("Enter"@, mods_seq(1)), Action::RunInTerminal),
        (("Space"@, mods_seq(1)), Action::Autocomplete),
    ]
}

/// Default bindings: archives, remote connections and tools.
pub open spec fn advanced_defaults() -> Seq<(BindingView, Action)> {
    seq![
        (("PageDown"@, mods_seq(3)), Action::EnterArchive),
        (("F6"@, mods_seq(3)), Action::ExtractArchive),
        (("F5"@, mods_seq(3)), Action::CreateArchive),
        (("s"@, mods_seq(4)), Action::SftpConnect),
        (("f"@, mods_seq(4)), Action::FtpConnect),
        (("d"@, mods_seq(4)), Action::Disconnect),
        (("k"@, mods_seq(1)), Action::CompareDirs),
        (("c"@, mods_seq(4)), Action::CalculateSize),
        (("m"@, mods_seq(1)), Action::MultiRename),
        (("Enter"@, mods_seq(3)), Action::Properties),
    ]
}

/// Default bindings: exit, help, about and macros.
pub open spec fn special_defaults() -> Seq<(BindingView, Action)> {
    seq![
        (("q"@, mods_seq(1)), Action::QuickExit),
        (("?"@, mods_seq(1)), Action::ShowShortcuts),
        (("F1"@, mods_seq(3)), Action::About),
        (("r"@, mods_seq(4)), Action::StartMacroRecord),
        (("p"@, mods_seq(4)), Action::PlayMacro),
        (("m"@, mods_seq(4)), Action::ManageMacros),
    ]
}

fn function_keys() -> (r: Vec<(KeyBinding, Action)>)
    ensures
        table_view(r@) == function_defaults(),
{
    let mut r: Vec<(KeyBinding, Action)> = Vec::new();
    r.push((kb("F1", 0), Action::Help));
    r.push((kb("F2", 0), Action::Rename));
    r.push((kb("F3", 0), Action::ViewFile));
    r.push((kb("F4", 0), Action::EditFile));
    r.push((kb("F5", 0), Action::Copy));
    r.push((kb("F6", 0), Action::Move));
    r.push((kb("F7", 0), Action::CreateDirectory));
    r.push((kb("F8", 0), Action::Delete));
    r.push((kb("F9", 0), Action::Settings));
    r.push((kb("F10", 0), Action::Quit));
    r.push((kb("F11", 0), Action::ToggleFullscreen));
    r.push((kb("F12", 0), Action::OpenSystemTerminal));
    assert(table_view(r@) =~= function_defaults());
    r
}

fn extended_function_keys() -> (r: Vec<(KeyBinding, Action)>)
    ensures
        table_view(r@) == extended_function_defaults(),
{
    let mut r: Vec<(KeyBinding, Action)> = Vec::new();
    r.push((kb("F1", 2), Action::ContextHelp));
    r.push((kb("F1", 3), Action::ChangeDriveLeft));
    r.push((kb("F2", 3), Action::ChangeDriveRight));
    r.push((kb("F3", 2), Action::SearchPrevious));
    r.push((kb("F4", 2), Action::NewFile));
    r.push((kb("F5", 2), Action::CopyAs));
    r.push((kb("F6", 2), Action::Rename));
    r.push((kb("F7", 3), Action::FindInFiles));
    r.push((kb("F8", 3), Action::ShowHistory));
    assert(table_view(r@) =~= extended_function_defaults());
    r
}

fn navigation_keys() -> (r: Vec<(KeyBinding, Action)>)
    ensures
        table_view(r@) == navigation_defaults(),
{
    let mut r: Vec<(KeyBinding, Action)> = Vec::new();
    r.push((kb("Up", 0), Action::NavigateUp));
    r.push((kb("Down", 0), Action::NavigateDown));
    r.push((kb("Left", 0), Action::NavigateToParent));
    r.push((kb("Right", 0), Action::NavigateInto));
    r.push((kb("Enter", 0), Action::NavigateInto));
    r.push((kb("Backspace", 0), Action::NavigateToParent));
    r.push((kb("Tab", 0), Action::SwitchPanel));
    r.push((kb("PageUp", 0), Action::NavigatePageUp));
    r.push((kb("PageDown", 0), Action::NavigatePageDown));
    r.push((kb("Home", 0), Action::NavigateHome));
    r.push((kb("End", 0), Action::NavigateEnd));
    r.push((kb("PageUp", 1), Action::GoToRootDir));
    r.push((kb("PageDown", 1), Action::GoToDeepestDir));
    r.push((kb("Left", 3), Action::HistoryBack));
    r.push((kb("Right", 3), Action::HistoryForward));
    r.push((kb("Down", 3), Action::ShowHistoryList));
    assert(table_view(r@) =~= navigation_defaults());
    r
}

fn selection_keys() -> (r: Vec<(KeyBinding, Action)>)
    ensures
        table_view(r@) == selection_defaults(),
{
    let mut r: Vec<(KeyBinding, Action)> = Vec::new();
    r.push((kb("Space", 0), Action::SelectItem));
    r.push((kb("Insert", 0), Action::SelectItem));
    r.push((kb("a", 1), Action::SelectAll));
    r.push((kb("u", 1), Action::SelectNone));
    r.push((kb("+", 0), Action::SelectPattern));
    r.push((kb("-", 0), Action::DeselectPattern));
    r.push((kb("*", 0), Action::InvertSelection));
    assert(table_view(r@) =~= selection_defaults());
    r
}

fn file_operation_keys() -> (r: Vec<(KeyBinding, Action)>)
    ensures
        table_view(r@) == file_operation_defaults(),
{
    let mut r: Vec<(KeyBinding, Action)> = Vec::new();
    r.push((kb("c", 1), Action::CopyToClipboard));
    r.push((kb("x", 1), Action::Cut));
    r.push((kb("v", 1), Action::PasteFromClipboard));
    r.push((kb("Delete", 0), Action::Delete));
    r.push((kb("Delete", 2), Action::ForceDelete));
    r.push((kb("n", 1), Action::NewFile));
    r.push((kb("n", 4), Action::NewFolder));
    assert(table_view(r@) =~= file_operation_defaults());
    r
}

fn search_keys() -> (r: Vec<(KeyBinding, Action)>)
    ensures
        table_view(r@) == search_defaults(),
{
    let mut r: Vec<(KeyBinding, Action)> = Vec::new();
    r.push((kb("f", 1), Action::QuickFilter));
    r.push((kb("f", 4), Action::FindInFiles));
    r.push((kb("/", 0), Action::QuickFilter));
    r.push((kb("l", 1), Action::ClearFilter));
    r.push((kb("g", 1), Action::GoToLine));
    r.push((kb("n", 4), Action::SearchPrevious));
    assert(table_view(r@) =~= search_defaults());
    r
}

fn view_keys() -> (r: Vec<(KeyBinding, Action)>)
    ensures
        table_view(r@) == view_defaults(),
{
    let mut r: Vec<(KeyBinding, Action)> = Vec::new();
    r.push((kb("h", 1), Action::ToggleHidden));
    r.push((kb("d", 1), Action::ToggleDetails));
    r.push((kb("t", 1), Action::ToggleTreeView));
    r.push((kb("1", 1), Action::BriefView));
    r.push((kb("2", 1), Action::FullView));
    r.push((kb("3", 1), Action::WideView));
    r.push((kb("F3", 1), Action::SortByName));
    r.push((kb("F4", 1), Action::SortByExtension));
    r.push((kb("F5", 1), Action::SortByDate));
    r.push((kb("F6", 1), Action::SortBySize));
    r.push((kb("r", 1), Action::ReverseSort));
    assert(table_view(r@) =~= view_defaults());
    r
}

fn panel_keys() -> (r: Vec<(KeyBinding, Action)>)
    ensures
        table_view(r@) == panel_defaults(),
{
    let mut r: Vec<(KeyBinding, Action)> = Vec::new();
    r.push((kb("u", 1), Action::SwapPanels));
    r.push((kb("s", 1), Action::SyncPanels));
    r.push((kb("=", 1), Action::EqualPanels));
    r.push((kb("l", 4), Action::FocusLeftPanel));
    r.push((kb("r", 4), Action::FocusRightPanel));
    r.push((kb("o", 1), Action::HidePanels));
    r.push((kb("p", 1), Action::PanelMenu));
    r.push((kb("F10", 3), Action::TreePanel));
    assert(table_view(r@) =~= panel_defaults());
    r
}

fn quick_access_keys() -> (r: Vec<(KeyBinding, Action)>)
    ensures
        table_view(r@) == quick_access_defaults(),
{
    let mut r: Vec<(KeyBinding, Action)> = Vec::new();
    r.push((kb("0", 1), Action::GoToHome));
    r.push((kb("/", 1), Action::GoToRoot));
    assert(table_view(r@) =~= quick_access_defaults());
    r
}

fn bookmark_keys() -> (r: Vec<(KeyBinding, Action)>)
    ensures
        table_view(r@) == bookmark_defaults(),
{
    let mut r: Vec<(KeyBinding, Action)> = Vec::new();
    r.push((kb("d", 1), Action::AddBookmark));
    r.push((kb("b", 1), Action::ShowBookmarks));
    assert(table_view(r@) =~= bookmark_defaults());
    r
}

fn command_keys() -> (r: Vec<(KeyBinding, Action)>)
    ensures
        table_view(r@) == command_defaults(),
{
    let mut r: Vec<(KeyBinding, Action)> = Vec::new();
    r.push((kb("b", 4), Action::ManageBookmarks));
    r.push((kb(":", 0), Action::CommandLine));
    r.push((kb("!", 0), Action::ShellCommand));
    r.push((kb("Enter", 1), Action::RunInTerminal));
    r.push((kb("Space", 1), Action::Autocomplete));
    assert(table_view(r@) =~= command_defaults());
    r
}

fn advanced_keys() -> (r: Vec<(KeyBinding, Action)>)
    ensures
        table_view(r@) == advanced_defaults(),
{
    let mut r: Vec<(KeyBinding, Action)> = Vec::new();
    r.push((kb("PageDown", 3), Action::EnterArchive));
    r.push((kb("F6", 3), Action::ExtractArchive));
    r.push((kb("F5", 3), Action::CreateArchive));
    r.push((kb("s", 4), Action::SftpConnect));
    r.push((kb("f", 4), Action::FtpConnect));
    r.push((kb("d", 4), Action::Disconnect));
    r.push((kb("k", 1), Action::CompareDirs));
    r.push((kb("c", 4), Action::CalculateSize));
    r.push((kb("m", 1), Action::MultiRename));
    r.push((kb("Enter", 3), Action::Properties));
    assert(table_view(r@) =~= advanced_defaults());
    r
}

/// Default bindings the user guide lists, bound last so that they take
/// precedence: Space marks or unmarks an entry, Ctrl+U unmarks all, Alt+1
/// to Alt+4 sort by name, size, date and extension, Ctrl+R refreshes the
/// panels.
pub open spec fn guide_defaults() -> Seq<(BindingView, Action)> {
    seq![
        ((" "@, mods_seq(0)), Action::SelectItem),
        (("u"@, mods_seq(1)), Action::SelectNone),
        (("1"@, mods_seq(3)), Action::SortByName),
        (("2"@, mods_seq(3)), Action::SortBySize),
        (("3"@, mods_seq(3)), Action::SortByDate),
        (("4"@, mods_seq(3)), Action::SortByExtension),
        (("r"@, mods_seq(1)), Action::Refresh),
    ]
}

fn guide_keys() -> (r: Vec<(KeyBinding, Action)>)
    ensures
        table_view(r@) == guide_defaults(),
{
    let mut r: Vec<(KeyBinding, Action)> = Vec::new();
    r.push((kb(" ", 0), Action::SelectItem));
    r.push((kb("u", 1), Action::SelectNone));
    r.push((kb("1", 3), Action::SortByName));
    r.push((kb("2", 3), Action::SortBySize));
    r.push((kb("3", 3), Action::SortByDate));
    r.push((kb("4", 3), Action::SortByExtension));
    r.push((kb("r", 1), Action::Refresh));
    assert(table_view(r@) =~= guide_defaults());
    r
}

fn special_keys() -> (r: Vec<(KeyBinding, Action)>)
    ensures
        table_view(r@) == special_defaults(),
{
    let mut r: Vec<(KeyBinding, Action)> = Vec::new();
    r.push((kb("q", 1), Action::QuickExit));
    r.push((kb("?", 1), Action::ShowShortcuts));
    r.push((kb("F1", 3), Action::About));
    r.push((kb("r", 4), Action::StartMacroRecord));
    r.push((kb("p", 4), Action::PlayMacro));
    r.push((kb("m", 4), Action::ManageMacros));
    assert(table_view(r@) =~= special_defaults());
    r
}

/// Default bindings: Ctrl with a digit opens quick directory 1 to 9, and
/// Ctrl+Shift with a digit sets it.
pub open spec fn quick_dir_number_defaults() -> Seq<(BindingView, Action)> {
    Seq::new(
        18,
        |j: int|
            if j % 2 == 0 {
                ((text::decimal((j / 2 + 1) as nat), mods_seq(1)), Action::GoToQuickDir((j / 2 + 1) as u8))
            } else {
                ((text::decimal((j / 2 + 1) as nat), mods_seq(4)), Action::SetQuickDir((j / 2 + 1) as u8))
            },
    )
}

/// Default bindings: Alt with a digit opens bookmark 1 to 9.
pub open spec fn bookmark_number_defaults() -> Seq<(BindingView, Action)> {
    Seq::new(9, |j: int| ((text::decimal((j + 1) as nat), mods_seq(3)), Action::GoToBookmark((j + 1) as u8)))
}

fn quick_dir_number_keys() -> (r: Vec<(KeyBinding, Action)>)
    ensures
        table_view(r@) == quick_dir_number_defaults(),
{
    let mut r: Vec<(KeyBinding, Action)> = Vec::new();
    let mut i: u8 = 1;
    while i <= 9
        invariant
            1 <= i <= 10,
            r@.len() == 2 * (i - 1),
            forall|j: int| 0 <= j < r@.len() ==> #[trigger] table_view(r@)[j] == quick_dir_number_defaults()[j],
        decreases 10 - i,
    {
        let ghost n = r@.len() as int;
        let ghost before = r@;
        r.push((kb(text::decimal_string(i as u64).as_str(), 1), Action::GoToQuickDir(i)));
        r.push((kb(text::decimal_string(i as u64).as_str(), 4), Action::SetQuickDir(i)));
        assert forall|j: int| 0 <= j < n implies #[trigger] table_view(r@)[j] == table_view(before)[j] by {
            assert(r@[j] == before[j]);
        }
        assert(n % 2 == 0 && n / 2 + 1 == i);
        assert((n + 1) % 2 == 1 && (n + 1) / 2 + 1 == i);
        assert(table_view(r@)[n] == quick_dir_number_defaults()[n]);
        assert(table_view(r@)[n + 1] == quick_dir_number_defaults()[n + 1]);
        i = i + 1;
    }
    assert(table_view(r@) =~= quick_dir_number_defaults());
    r
}

fn bookmark_number_keys() -> (r: Vec<(KeyBinding, Action)>)
    ensures
        table_view(r@) == bookmark_number_defaults(),
{
    let mut r: Vec<(KeyBinding, Action)> = Vec::new();
    let mut i: u8 = 1;
    while i <= 9
        invariant
            1 <= i <= 10,
            r@.len() == i - 1,
            forall|j: int| 0 <= j < r@.len() ==> #[trigger] table_view(r@)[j] == bookmark_number_defaults()[j],
        decreases 10 - i,
    {
        let ghost before = r@;
        r.push((kb(text::decimal_string(i as u64).as_str(), 3), Action::GoToBookmark(i)));
        assert forall|j: int| 0 <= j < before.len() implies #[trigger] table_view(r@)[j] == table_view(before)[j] by {
            assert(r@[j] == before[j]);
        }
        assert(table_view(r@)[i - 1] == bookmark_number_defaults()[i - 1]);
        i = i + 1;
    }
    assert(table_view(r@) =~= bookmark_number_defaults());
    r
}

/// The default bindings in the order they are bound; where a binding occurs
/// twice, the later action is the one that stays.
pub open spec fn default_pairs() -> Seq<(BindingView, Action)> {
    function_defaults() + extended_function_defaults() + navigation_defaults() + selection_defaults()
        + file_operation_defaults() + search_defaults() + view_defaults() + panel_defaults()
        + quick_dir_number_defaults() + quick_access_defaults() + bookmark_defaults()
        + bookmark_number_defaults() + command_defaults() + advanced_defaults() + special_defaults()
        + guide_defaults()
}

/// The default keymap.
pub open spec fn default_table() -> Seq<(BindingView, Action)> {
    insert_all(Seq::empty(), default_pairs())
}

fn append_group(all: &mut Vec<(KeyBinding, Action)>, g: Vec<(KeyBinding, Action)>)
    ensures
        table_view(final(all)@) == table_view(old(all)@) + table_view(g@),
{
    let ghost gv = g@;
    let mut g = g;
    all.append(&mut g);
    assert(table_view(all@) =~= table_view(old(all)@) + table_view(gv));
}

fn default_list() -> (r: Vec<(KeyBinding, Action)>)
    ensures
        table_view(r@) == default_pairs(),
{
    let mut all = function_keys();
    append_group(&mut all, extended_function_keys());
    append_group(&mut all, navigation_keys());
    append_group(&mut all, selection_keys());
    append_group(&mut all, file_operation_keys());
    append_group(&mut all, search_keys());
    append_group(&mut all, view_keys());
    append_group(&mut all, panel_keys());
    append_group(&mut all, quick_dir_number_keys());
    append_group(&mut all, quick_access_keys());
    append_group(&mut all, bookmark_keys());
    append_group(&mut all, bookmark_number_keys());
    append_group(&mut all, command_keys());
    append_group(&mut all, advanced_keys());
    append_group(&mut all, special_keys());
    append_group(&mut all, guide_keys());
    all
}

/// Bindings are in the order of how they are shown.
pub open spec fn sorted_by_display(s: Seq<(BindingView, Action)>) -> bool {
    forall|i: int|
        0 <= i < s.len() - 1 ==> state::lex_order(display(s[i].0), display((#[trigger] s[i + 1]).0))
            != Order::Greater
}

proof fn lemma_sorted_at(s: Seq<(BindingView, Action)>, i: int)
    requires
        sorted_by_display(s),
        0 <= i < s.len() - 1,
    ensures
        state::lex_order(display(s[i].0), display(s[i + 1].0)) != Order::Greater,
{
    assert(s[i + 1] == s[i + 1]);
}

/// Where a binding goes among bindings sorted by how they are shown: before
/// the first shown after it, so after those shown alike.
pub open spec fn display_insertion_point(s: Seq<(BindingView, Action)>, x: (BindingView, Action)) -> int
    decreases s.len(),
{
    if s.len() == 0 {
        0
    } else if state::lex_order(display(s[0].0), display(x.0)) == Order::Greater {
        0
    } else {
        1 + display_insertion_point(s.drop_first(), x)
    }
}

/// The bindings ordered by how they are shown, those shown alike kept in
/// the order given (a stable sort).
pub open spec fn display_sorted(v: Seq<(BindingView, Action)>) -> Seq<(BindingView, Action)>
    decreases v.len(),
{
    if v.len() == 0 {
        v
    } else {
        let s = display_sorted(v.drop_last());
        s.insert(display_insertion_point(s, v.last()), v.last())
    }
}

proof fn lemma_display_insertion_point(s: Seq<(BindingView, Action)>, x: (BindingView, Action), j: int)
    requires
        0 <= j <= s.len(),
        forall|t: int| 0 <= t < j ==> state::lex_order(display(#[trigger] s[t].0), display(x.0)) != Order::Greater,
        j < s.len() ==> state::lex_order(display(s[j].0), display(x.0)) == Order::Greater,
    ensures
        display_insertion_point(s, x) == j,
    decreases j,
{
    if j > 0 {
        let d = s.drop_first();
        assert forall|t: int| 0 <= t < j - 1 implies state::lex_order(display(#[trigger] d[t].0), display(x.0))
            != Order::Greater by {
            assert(d[t] == s[t + 1]);
        }
        if j < s.len() {
            assert(d[j - 1] == s[j]);
        }
        assert(state::lex_order(display(s[0].0), display(x.0)) != Order::Greater);
        lemma_display_insertion_point(d, x, j - 1);
    }
}

/// Sorts bindings by how they are shown, keeping the order of bindings shown
/// alike.
fn sort_by_display(v: &Vec<(KeyBinding, Action)>) -> (r: Vec<(KeyBinding, Action)>)
    ensures
        table_view(r@).to_multiset() == table_view(v@).to_multiset(),
        sorted_by_display(table_view(r@)),
        table_view(r@) == display_sorted(table_view(v@)),
{
    let mut r: Vec<(KeyBinding, Action)> = Vec::new();
    let mut keys: Vec<Vec<char>> = Vec::new();
    let mut k: usize = 0;
    assert(table_view(v@).take(0) =~= Seq::<(BindingView, Action)>::empty());
    assert(table_view(r@) =~= Seq::<(BindingView, Action)>::empty());
    while k < v.len()
        invariant
            k <= v@.len(),
            keys@.len() == r@.len(),
            forall|t: int| 0 <= t < keys@.len() ==> #[trigger] keys@[t]@ == display(r@[t].0@),
            table_view(r@).to_multiset() == table_view(v@).take(k as int).to_multiset(),
            sorted_by_display(table_view(r@)),
            table_view(r@) == display_sorted(table_view(v@).take(k as int)),
        decreases v@.len() - k,
    {
        let x = v[k].0.clone();
        assert(x@ == v@[k as int].0@);
        let a = v[k].1;
        let kx = text::chars_of(x.to_display_string().as_str());
        let mut j: usize = 0;
        loop
            invariant_except_break
                keys@.len() == r@.len(),
                j <= r@.len(),
                forall|t: int| 0 <= t < j ==> state::lex_order(#[trigger] keys@[t]@, kx@) != Order::Greater,
            ensures
                keys@.len() == r@.len(),
                j <= r@.len(),
                forall|t: int| 0 <= t < j ==> state::lex_order(#[trigger] keys@[t]@, kx@) != Order::Greater,
                j < r@.len() ==> state::lex_order(keys@[j as int]@, kx@) == Order::Greater,
            decreases r@.len() - j,
        {
            if j >= r.len() {
                break;
            }
            if state::lex_compare(keys[j].as_slice(), kx.as_slice()) == Order::Greater {
                break;
            }
            j = j + 1;
        }
        let ghost old_r = table_view(r@);
        let ghost old_raw = r@;
        let ghost old_keys = keys@;
        assert forall|t: int| 0 <= t < old_keys.len() implies #[trigger] old_keys[t]@ == display(old_r[t].0) by {
            assert(old_r[t].0 == old_raw[t].0@);
        }
        r.insert(j, (x, a));
        keys.insert(j, kx);
        let ghost item = (v@[k as int].0@, a);
        assert(table_view(r@) =~= old_r.insert(j as int, item));
        proof {
            assert(kx@ == display(item.0));
            assert forall|t: int| 0 <= t < j implies state::lex_order(display(#[trigger] old_r[t].0), display(item.0))
                != Order::Greater by {
                assert(old_keys[t]@ == display(old_r[t].0));
            }
            if j < old_r.len() {
                assert(old_keys[j as int]@ == display(old_r[j as int].0));
            }
            lemma_display_insertion_point(old_r, item, j as int);
            let tk = table_view(v@).take(k + 1);
            assert(tk.drop_last() =~= table_view(v@).take(k as int));
            assert(tk.last() == item);
            vstd::seq_lib::to_multiset_insert(old_r, j as int, item);
            assert(table_view(v@).take(k + 1) =~= table_view(v@).take(k as int).push(item));
            vstd::seq_lib::to_multiset_build(table_view(v@).take(k as int), item);
            if j < old_r.len() {
                state::lemma_lex_antisym(kx@, old_keys[j as int]@);
            }
        }
        assert forall|t: int| 0 <= t < keys@.len() implies #[trigger] keys@[t]@ == display(r@[t].0@) by {
            if t < j {
                assert(keys@[t] == old_keys[t]);
            } else if t > j {
                assert(keys@[t] == old_keys[t - 1]);
            }
        }
        let ghost nr = table_view(r@);
        assert forall|i: int| 0 <= i < nr.len() - 1 implies state::lex_order(
            display(nr[i].0),
            display((#[trigger] nr[i + 1]).0),
        ) != Order::Greater by {
            if i + 1 < j {
                assert(nr[i] == old_r[i] && nr[i + 1] == old_r[i + 1]);
                assert(state::lex_order(display(nr[i].0), display(nr[i + 1].0)) != Order::Greater);
            } else if i + 1 == j {
                assert(nr[i] == old_r[i]);
                assert(display(nr[i].0) == old_keys[i]@);
                assert(display(nr[i + 1].0) == kx@);
                assert(state::lex_order(old_keys[i]@, kx@) != Order::Greater);
                assert(state::lex_order(display(nr[i].0), display(nr[i + 1].0)) != Order::Greater);
            } else if i == j {
                assert(nr[i + 1] == old_r[i]);
                assert(display(nr[i + 1].0) == old_keys[i]@);
                assert(display(nr[i].0) == kx@);
                assert(state::lex_order(old_keys[i]@, kx@) == Order::Greater);
                assert(state::lex_order(display(nr[i].0), display(nr[i + 1].0)) != Order::Greater);
            } else {
                assert(nr[i] == old_r[i - 1] && nr[i + 1] == old_r[i]);
                lemma_sorted_at(old_r, i - 1);
            }
        }
        k = k + 1;
    }
    assert(table_view(v@).take(v@.len() as int) =~= table_view(v@));
    r
}

/// The description of an action shown in the help.
pub open spec fn action_description(a: Action) -> Seq<char> {
    match a {
        Action::NavigateUp => "Move cursor up"@,
        Action::NavigateDown => "Move cursor down"@,
        Action::NavigateLeft => "Go to parent directory"@,
        Action::NavigateRight => "Enter directory"@,
        Action::NavigatePageUp => "Page up"@,
        Action::NavigatePageDown => "Page down"@,
        Action::NavigateHome => "Go to first item"@,
        Action::NavigateEnd => "Go to last item"@,
        Action::Copy => "Copy selected files"@,
        Action::Move => "Move selected files"@,
        Action::Delete => "Delete selected files"@,
        Action::Rename => "Rename file"@,
        Action::CreateFile => "Create new file"@,
        Action::CreateDirectory => "Create new directory"@,
        Action::ViewFile => "View file"@,
        Action::EditFile => "Edit file"@,
        Action::Search => "Advanced search"@,
        Action::Refresh => "Refresh panels"@,
        Action::Help => "Show help"@,
        Action::Settings => "Open settings"@,
        Action::Quit => "Quit application"@,
        Action::SelectAll => "Select all files"@,
        Action::ToggleHidden => "Toggle hidden files"@,
        Action::CommandPalette => "Open command palette"@,
        Action::SwitchPanel => "Switch active panel"@,
        _ => "Action"@,
    }
}

/// The keymap: the default bindings, the user's own bindings, and the modal
/// mode where modal handling is on.
pub struct ShortcutManager {
    shortcuts: Vec<(KeyBinding, Action)>,
    vim_mode: Option<VimMode>,
    custom_shortcuts: Vec<(KeyBinding, Action)>,
}

impl ShortcutManager {
    /// The default bindings.
    pub closed spec fn standard(&self) -> Seq<(BindingView, Action)> {
        table_view(self.shortcuts@)
    }

    /// The user's bindings.
    pub closed spec fn custom(&self) -> Seq<(BindingView, Action)> {
        table_view(self.custom_shortcuts@)
    }

    /// The modal mode, where modal handling is on.
    pub closed spec fn mode(&self) -> Option<VimMode> {
        self.vim_mode
    }

    /// No binding occurs twice in either table.
    pub closed spec fn wf(&self) -> bool {
        cache::distinct_keys(self.standard()) && cache::distinct_keys(self.custom())
    }

    /// A well-formed manager binds each key at most once, in the default
    /// keymap and among the user's bindings.
    pub proof fn lemma_keys_distinct(&self)
        requires
            self.wf(),
        ensures
            cache::distinct_keys(self.standard()),
            cache::distinct_keys(self.custom()),
    {
    }

    /// The action of a key pressed with modifiers, if any.
    pub fn get_action(&self, code: KeyCode, modifiers: KeyModifiers) -> (r: Option<Action>)
        requires
            self.wf(),
        ensures
            r == resolve(self.custom(), self.mode(), self.standard(), code, modifiers),
    {
        let binding = KeyBinding::new(code, modifiers);
        if let Some(action) = table_get(&self.custom_shortcuts, &binding) {
            return Some(action);
        }
        if let Some(vim_mode) = self.vim_mode {
            if let Some(action) = Self::get_vim_action(vim_mode, code, modifiers) {
                return Some(action);
            }
        }
        table_get(&self.shortcuts, &binding)
    }

    /// The modal binding of a key in a mode.
    fn get_vim_action(mode: VimMode, code: KeyCode, modifiers: KeyModifiers) -> (r: Option<Action>)
        ensures
            r == vim_action(mode, code, modifiers),
    {
        if code == KeyCode::Esc {
            return Some(Action::VimEnterNormal);
        }
        match mode {
            VimMode::Normal => match code {
                KeyCode::Char(c) => {
                    let only_shift = modifiers.shift && !modifiers.control && !modifiers.alt
                        && !modifiers.super_key && !modifiers.hyper && !modifiers.meta;
                    let only_control = !modifiers.shift && modifiers.control && !modifiers.alt
                        && !modifiers.super_key && !modifiers.hyper && !modifiers.meta;
                    if no_modifiers(modifiers) {
                        normal_char(c)
                    } else if only_shift && c == 'G' {
                        Some(Action::VimGoToBottom)
                    } else if only_shift && c == 'N' {
                        Some(Action::SearchPrevious)
                    } else if only_control && c == 'r' {
                        Some(Action::VimRedo)
                    } else {
                        None
                    }
                },
                _ => None,
            },
            VimMode::Insert => None,
            VimMode::Visual => match code {
                KeyCode::Char(c) => {
                    if no_modifiers(modifiers) {
                        visual_char(c)
                    } else {
                        None
                    }
                },
                _ => None,
            },
            VimMode::Command => {
                if code == KeyCode::Enter {
                    Some(Action::ExecuteCommand)
                } else {
                    None
                }
            },
        }
    }

    /// Turns modal handling on (in normal mode) or off.
    pub fn set_vim_mode(&mut self, enabled: bool)
        ensures
            final(self).mode() == (if enabled { Some(VimMode::Normal) } else { None }),
            final(self).standard() == old(self).standard(),
            final(self).custom() == old(self).custom(),
            old(self).wf() ==> final(self).wf(),
    {
        self.vim_mode = if enabled { Some(VimMode::Normal) } else { None };
    }

    /// Switches the modal mode, where modal handling is on.
    pub fn change_vim_mode(&mut self, mode: VimMode)
        ensures
            final(self).mode() == (if old(self).mode() is Some { Some(mode) } else { None }),
            final(self).standard() == old(self).standard(),
            final(self).custom() == old(self).custom(),
            old(self).wf() ==> final(self).wf(),
    {
        if self.vim_mode.is_some() {
            self.vim_mode = Some(mode);
        }
    }

    /// The modal mode, where modal handling is on.
    pub fn get_vim_mode(&self) -> (r: Option<VimMode>)
        ensures
            r == self.mode(),
    {
        self.vim_mode
    }


    /// The default keymap, with modal handling off and no user bindings.
    pub fn new() -> (r: Self)
        ensures
            r.wf(),
            r.standard() == default_table(),
            r.custom() == Seq::<(BindingView, Action)>::empty(),
            r.mode() == None::<VimMode>,
    {
        let all = default_list();
        let mut shortcuts: Vec<(KeyBinding, Action)> = Vec::new();
        let mut i: usize = 0;
        while i < all.len()
            invariant
                i <= all@.len(),
                table_view(all@) == default_pairs(),
                cache::distinct_keys(table_view(shortcuts@)),
                table_view(shortcuts@) == insert_all(Seq::empty(), table_view(all@).take(i as int)),
            decreases all@.len() - i,
        {
            let b = all[i].0.clone();
            table_insert(&mut shortcuts, b, all[i].1);
            assert(table_view(all@).take(i + 1).drop_last() =~= table_view(all@).take(i as int));
            i = i + 1;
        }
        assert(table_view(all@).take(all@.len() as int) =~= table_view(all@));
        let r = ShortcutManager { shortcuts, vim_mode: None, custom_shortcuts: Vec::new() };
        assert(r.custom() =~= Seq::<(BindingView, Action)>::empty());
        r
    }

    /// Every binding, the default ones and the user's, ordered by how they are
    /// shown.
    pub fn get_all_shortcuts(&self) -> (r: Vec<(KeyBinding, Action)>)
        ensures
            table_view(r@) == display_sorted(self.standard() + self.custom()),
            table_view(r@).to_multiset() == (self.standard() + self.custom()).to_multiset(),
            sorted_by_display(table_view(r@)),
    {
        let mut all: Vec<(KeyBinding, Action)> = Vec::new();
        let mut i: usize = 0;
        while i < self.shortcuts.len()
            invariant
                i <= self.shortcuts@.len(),
                table_view(all@) == self.standard().take(i as int),
            decreases self.shortcuts@.len() - i,
        {
            let b = self.shortcuts[i].0.clone();
            assert(b@ == self.shortcuts@[i as int].0@);
            let ghost before = all@;
            all.push((b, self.shortcuts[i].1));
            assert(table_view(all@) =~= table_view(before).push(self.standard()[i as int]));
            assert(self.standard().take(i + 1) =~= self.standard().take(i as int).push(self.standard()[i as int]));
            assert(table_view(all@) =~= self.standard().take(i + 1));
            i = i + 1;
        }
        let mut i: usize = 0;
        while i < self.custom_shortcuts.len()
            invariant
                i <= self.custom_shortcuts@.len(),
                table_view(all@) == self.standard() + self.custom().take(i as int),
            decreases self.custom_shortcuts@.len() - i,
        {
            let b = self.custom_shortcuts[i].0.clone();
            assert(b@ == self.custom_shortcuts@[i as int].0@);
            let ghost before = all@;
            all.push((b, self.custom_shortcuts[i].1));
            assert(table_view(all@) =~= table_view(before).push(self.custom()[i as int]));
            assert(self.custom().take(i + 1) =~= self.custom().take(i as int).push(self.custom()[i as int]));
            assert(table_view(all@) =~= self.standard() + self.custom().take(i + 1));
            i = i + 1;
        }
        assert(self.custom().take(self.custom().len() as int) =~= self.custom());
        sort_by_display(&all)
    }

    /// The description of an action shown in the help.
    pub fn get_action_description(action: &Action) -> (r: &'static str)
        ensures
            r@ == action_description(*action),
    {
        match action {
            Action::NavigateUp => "Move cursor up",
            Action::NavigateDown => "Move cursor down",
            Action::NavigateLeft => "Go to parent directory",
            Action::NavigateRight => "Enter directory",
            Action::NavigatePageUp => "Page up",
            Action::NavigatePageDown => "Page down",
            Action::NavigateHome => "Go to first item",
            Action::NavigateEnd => "Go to last item",
            Action::Copy => "Copy selected files",
            Action::Move => "Move selected files",
            Action::Delete => "Delete selected files",
            Action::Rename => "Rename file",
            Action::CreateFile => "Create new file",
            Action::CreateDirectory => "Create new directory",
            Action::ViewFile => "View file",
            Action::EditFile => "Edit file",
            Action::Search => "Advanced search",
            Action::Refresh => "Refresh panels",
            Action::Help => "Show help",
            Action::Settings => "Open settings",
            Action::Quit => "Quit application",
            Action::SelectAll => "Select all files",
            Action::ToggleHidden => "Toggle hidden files",
            Action::CommandPalette => "Open command palette",
            Action::SwitchPanel => "Switch active panel",
            _ => "Action",
        }
    }
    /// Binds a key to an action, in place of what the user had bound to it.
    pub fn add_custom_shortcut(&mut self, binding: KeyBinding, action: Action)
        requires
            old(self).wf(),
        ensures
            final(self).wf(),
            final(self).custom() == cache::insert_key(old(self).custom(), binding@, action),
            final(self).standard() == old(self).standard(),
            final(self).mode() == old(self).mode(),
    {
        table_insert(&mut self.custom_shortcuts, binding, action);
    }

    /// Removes the user's binding of a key.
    pub fn remove_custom_shortcut(&mut self, binding: &KeyBinding)
        requires
            old(self).wf(),
        ensures
            final(self).wf(),
            final(self).custom() == cache::remove_key(old(self).custom(), binding@),
            final(self).standard() == old(self).standard(),
            final(self).mode() == old(self).mode(),
    {
        table_remove(&mut self.custom_shortcuts, binding);
    }
}

/// A user binding decides what its key does, whatever the mode and the
/// default keymap say.
pub proof fn law_custom_binding_wins(
    custom: Seq<(BindingView, Action)>,
    mode: Option<VimMode>,
    standard: Seq<(BindingView, Action)>,
    code: KeyCode,
    m: KeyModifiers,
    a: Action,
)
    requires
        cache::distinct_keys(custom),
    ensures
        resolve(cache::insert_key(custom, binding_of(code, m), a), mode, standard, code, m) == Some(a),
{
    cache::lemma_insert_key(custom, binding_of(code, m), a);
}

/// Once the user's binding of a key is removed, the key does what it does
/// without user bindings.
pub proof fn law_removed_binding_falls_back(
    custom: Seq<(BindingView, Action)>,
    mode: Option<VimMode>,
    standard: Seq<(BindingView, Action)>,
    code: KeyCode,
    m: KeyModifiers,
)
    requires
        cache::distinct_keys(custom),
    ensures
        resolve(cache::remove_key(custom, binding_of(code, m)), mode, standard, code, m) == resolve(
            Seq::empty(),
            mode,
            standard,
            code,
            m,
        ),
{
    cache::lemma_remove_key(custom, binding_of(code, m));
    let e = Seq::<(BindingView, Action)>::empty();
    assert(!cache::has_key(e, binding_of(code, m)));
}

/// With modal handling on, Esc returns to normal mode from every mode, unless
/// the user bound it.
pub proof fn law_escape_returns_to_normal(
    custom: Seq<(BindingView, Action)>,
    mode: VimMode,
    standard: Seq<(BindingView, Action)>,
    m: KeyModifiers,
)
    requires
        !cache::has_key(custom, binding_of(KeyCode::Esc, m)),
    ensures
        resolve(custom, Some(mode), standard, KeyCode::Esc, m) == Some(Action::VimEnterNormal),
{
}

/// With modal handling on, in normal and in visual mode, `h`, `j`, `k` and `l`
/// typed without modifiers move left, down, up and right (four different
/// moves), unless the user bound the key.
pub proof fn law_hjkl_move(
    custom: Seq<(BindingView, Action)>,
    mode: VimMode,
    standard: Seq<(BindingView, Action)>,
    m: KeyModifiers,
)
    requires
        mode == VimMode::Normal || mode == VimMode::Visual,
        !m.shift && !m.control && !m.alt && !m.super_key && !m.hyper && !m.meta,
        !cache::has_key(custom, binding_of(KeyCode::Char('h'), m)),
        !cache::has_key(custom, binding_of(KeyCode::Char('j'), m)),
        !cache::has_key(custom, binding_of(KeyCode::Char('k'), m)),
        !cache::has_key(custom, binding_of(KeyCode::Char('l'), m)),
    ensures
        resolve(custom, Some(mode), standard, KeyCode::Char('h'), m) == Some(Action::NavigateLeft),
        resolve(custom, Some(mode), standard, KeyCode::Char('j'), m) == Some(Action::NavigateDown),
        resolve(custom, Some(mode), standard, KeyCode::Char('k'), m) == Some(Action::NavigateUp),
        resolve(custom, Some(mode), standard, KeyCode::Char('l'), m) == Some(Action::NavigateRight),
{
}

/// In normal mode, keys typed without modifiers that the user did not bind
/// act as in vi: `i`, `v` and `:` enter insert, visual and command mode, `g`
/// goes to the top, `y` yanks, `p` pastes, `d` deletes, `u` undoes, `/`
/// searches, `n` finds the next match, `m` sets a mark, `'` goes to one and
/// the space bar selects.
pub proof fn law_normal_mode_keys(
    custom: Seq<(BindingView, Action)>,
    standard: Seq<(BindingView, Action)>,
    m: KeyModifiers,
)
    requires
        !m.shift && !m.control && !m.alt && !m.super_key && !m.hyper && !m.meta,
    ensures
        !cache::has_key(custom, binding_of(KeyCode::Char('i'), m)) ==> resolve(
            custom,
            Some(VimMode::Normal),
            standard,
            KeyCode::Char('i'),
            m,
        ) == Some(Action::VimEnterInsert),
        !cache::has_key(custom, binding_of(KeyCode::Char('v'), m)) ==> resolve(
            custom,
            Some(VimMode::Normal),
            standard,
            KeyCode::Char('v'),
            m,
        ) == Some(Action::VimEnterVisual),
        !cache::has_key(custom, binding_of(KeyCode::Char(':'), m)) ==> resolve(
            custom,
            Some(VimMode::Normal),
            standard,
            KeyCode::Char(':'),
            m,
        ) == Some(Action::VimEnterCommand),
        !cache::has_key(custom, binding_of(KeyCode::Char('g'), m)) ==> resolve(
            custom,
            Some(VimMode::Normal),
            standard,
            KeyCode::Char('g'),
            m,
        ) == Some(Action::VimGoToTop),
        !cache::has_key(custom, binding_of(KeyCode::Char('y'), m)) ==> resolve(
            custom,
            Some(VimMode::Normal),
            standard,
            KeyCode::Char('y'),
            m,
        ) == Some(Action::VimYank),
        !cache::has_key(custom, binding_of(KeyCode::Char('p'), m)) ==> resolve(
            custom,
            Some(VimMode::Normal),
            standard,
            KeyCode::Char('p'),
            m,
        ) == Some(Action::VimPaste),
        !cache::has_key(custom, binding_of(KeyCode::Char('d'), m)) ==> resolve(
            custom,
            Some(VimMode::Normal),
            standard,
            KeyCode::Char('d'),
            m,
        ) == Some(Action::VimDelete),
        !cache::has_key(custom, binding_of(KeyCode::Char('u'), m)) ==> resolve(
            custom,
            Some(VimMode::Normal),
            standard,
            KeyCode::Char('u'),
            m,
        ) == Some(Action::VimUndo),
        !cache::has_key(custom, binding_of(KeyCode::Char('/'), m)) ==> resolve(
            custom,
            Some(VimMode::Normal),
            standard,
            KeyCode::Char('/'),
            m,
        ) == Some(Action::VimSearch),
        !cache::has_key(custom, binding_of(KeyCode::Char('n'), m)) ==> resolve(
            custom,
            Some(VimMode::Normal),
            standard,
            KeyCode::Char('n'),
            m,
        ) == Some(Action::SearchNext),
        !cache::has_key(custom, binding_of(KeyCode::Char('m'), m)) ==> resolve(
            custom,
            Some(VimMode::Normal),
            standard,
            KeyCode::Char('m'),
            m,
        ) == Some(Action::VimMark),
        !cache::has_key(custom, binding_of(KeyCode::Char('\''), m)) ==> resolve(
            custom,
            Some(VimMode::Normal),
            standard,
            KeyCode::Char('\''),
            m,
        ) == Some(Action::VimGoToMark),
        !cache::has_key(custom, binding_of(KeyCode::Char(' '), m)) ==> resolve(
            custom,
            Some(VimMode::Normal),
            standard,
            KeyCode::Char(' '),
            m,
        ) == Some(Action::SelectItem),
{
}

/// The other modal keys, unless the user bound them: in normal mode Shift+G
/// goes to the bottom, Shift+N finds the previous match and Ctrl+R redoes; in
/// visual mode `y` yanks and `d` deletes; in command mode Enter runs the
/// command.
pub proof fn law_modal_keys(
    custom: Seq<(BindingView, Action)>,
    standard: Seq<(BindingView, Action)>,
    none: KeyModifiers,
    shift: KeyModifiers,
    ctrl: KeyModifiers,
)
    requires
        !none.shift && !none.control && !none.alt && !none.super_key && !none.hyper && !none.meta,
        shift.shift && !shift.control && !shift.alt && !shift.super_key && !shift.hyper && !shift.meta,
        !ctrl.shift && ctrl.control && !ctrl.alt && !ctrl.super_key && !ctrl.hyper && !ctrl.meta,
    ensures
        !cache::has_key(custom, binding_of(KeyCode::Char('G'), shift)) ==> resolve(
            custom,
            Some(VimMode::Normal),
            standard,
            KeyCode::Char('G'),
            shift,
        ) == Some(Action::VimGoToBottom),
        !cache::has_key(custom, binding_of(KeyCode::Char('N'), shift)) ==> resolve(
            custom,
            Some(VimMode::Normal),
            standard,
            KeyCode::Char('N'),
            shift,
        ) == Some(Action::SearchPrevious),
        !cache::has_key(custom, binding_of(KeyCode::Char('r'), ctrl)) ==> resolve(
            custom,
            Some(VimMode::Normal),
            standard,
            KeyCode::Char('r'),
            ctrl,
        ) == Some(Action::VimRedo),
        !cache::has_key(custom, binding_of(KeyCode::Char('y'), none)) ==> resolve(
            custom,
            Some(VimMode::Visual),
            standard,
            KeyCode::Char('y'),
            none,
        ) == Some(Action::VimYank),
        !cache::has_key(custom, binding_of(KeyCode::Char('d'), none)) ==> resolve(
            custom,
            Some(VimMode::Visual),
            standard,
            KeyCode::Char('d'),
            none,
        ) == Some(Action::VimDelete),
        !cache::has_key(custom, binding_of(KeyCode::Enter, none)) ==> resolve(
            custom,
            Some(VimMode::Command),
            standard,
            KeyCode::Enter,
            none,
        ) == Some(Action::ExecuteCommand),
{
}

/// With modal handling off and no user binding, a key does what the default
/// keymap says.
pub proof fn law_keymap_without_modes(
    custom: Seq<(BindingView, Action)>,
    standard: Seq<(BindingView, Action)>,
    code: KeyCode,
    m: KeyModifiers,
)
    requires
        !cache::has_key(custom, binding_of(code, m)),
    ensures
        resolve(custom, None, standard, code, m) == cache::lookup(standard, binding_of(code, m)),
{
}

impl Default for ShortcutManager {
    fn default() -> (r: Self)
        ensures
            r.wf(),
            r.standard() == default_table(),
            r.custom() == Seq::<(BindingView, Action)>::empty(),
            r.mode() == None::<VimMode>,
    {
        Self::new()
    }
}

/// Adding a user binding for a key the user had not bound and removing it
/// again gives back the user's bindings, so every key resolves as before
/// and the list of all bindings is the same.
pub proof fn law_add_then_remove_restores(
    standard: Seq<(BindingView, Action)>,
    custom: Seq<(BindingView, Action)>,
    b: BindingView,
    a: Action,
)
    requires
        cache::distinct_keys(custom),
        !cache::has_key(custom, b),
    ensures
        cache::remove_key(cache::insert_key(custom, b, a), b) == custom,
        display_sorted(standard + cache::remove_key(cache::insert_key(custom, b, a), b)) == display_sorted(
            standard + custom,
        ),
{
    let added = cache::insert_key(custom, b, a);
    assert(added == custom.push((b, a)));
    cache::lemma_insert_key(custom, b, a);
    cache::lemma_key_index(added, b, custom.len() as int);
    assert(added.remove(custom.len() as int) =~= custom);
}

} // verus!
