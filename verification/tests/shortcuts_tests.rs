use cortex::shortcuts::{Action, KeyBinding, KeyCode, KeyModifiers, ShortcutManager, VimMode};

fn mods(control: bool, shift: bool, alt: bool) -> KeyModifiers {
    KeyModifiers { shift, control, alt, super_key: false, hyper: false, meta: false }
}

#[test]
fn default_keymap_function_keys() {
    let m = ShortcutManager::new();
    assert_eq!(m.get_action(KeyCode::F(1), KeyModifiers::none()), Some(Action::Help));
    assert_eq!(m.get_action(KeyCode::F(5), KeyModifiers::none()), Some(Action::Copy));
    assert_eq!(m.get_action(KeyCode::F(10), KeyModifiers::none()), Some(Action::Quit));
    assert_eq!(m.get_action(KeyCode::F(1), mods(false, true, false)), Some(Action::ContextHelp));
}

#[test]
fn later_default_binding_replaces_earlier_one() {
    let m = ShortcutManager::new();
    // Ctrl+1 is bound to the brief view first and to quick directory 1 later.
    assert_eq!(m.get_action(KeyCode::Char('1'), mods(true, false, false)), Some(Action::GoToQuickDir(1)));
    assert_eq!(m.get_action(KeyCode::Char('9'), mods(true, true, false)), Some(Action::SetQuickDir(9)));
    assert_eq!(m.get_action(KeyCode::Char('n'), mods(true, true, false)), Some(Action::SearchPrevious));
    assert_eq!(m.get_action(KeyCode::Char('d'), mods(true, false, false)), Some(Action::AddBookmark));
    assert_eq!(m.get_action(KeyCode::Char('5'), mods(false, false, true)), Some(Action::GoToBookmark(5)));
    assert_eq!(m.get_action(KeyCode::Char('9'), mods(false, false, true)), Some(Action::GoToBookmark(9)));
}

#[test]
fn keys_of_the_user_guide() {
    let m = ShortcutManager::new();
    let none = KeyModifiers::none();
    assert_eq!(m.get_action(KeyCode::Char(' '), none), Some(Action::SelectItem));
    assert_eq!(m.get_action(KeyCode::Char('a'), mods(true, false, false)), Some(Action::SelectAll));
    assert_eq!(m.get_action(KeyCode::Char('u'), mods(true, false, false)), Some(Action::SelectNone));
    assert_eq!(m.get_action(KeyCode::Char('1'), mods(false, false, true)), Some(Action::SortByName));
    assert_eq!(m.get_action(KeyCode::Char('2'), mods(false, false, true)), Some(Action::SortBySize));
    assert_eq!(m.get_action(KeyCode::Char('3'), mods(false, false, true)), Some(Action::SortByDate));
    assert_eq!(m.get_action(KeyCode::Char('4'), mods(false, false, true)), Some(Action::SortByExtension));
    assert_eq!(m.get_action(KeyCode::Char('r'), mods(true, false, false)), Some(Action::Refresh));
    assert_eq!(m.get_action(KeyCode::Char('h'), mods(true, false, false)), Some(Action::ToggleHidden));
    assert_eq!(m.get_action(KeyCode::Char('q'), mods(true, false, false)), Some(Action::QuickExit));
    assert_eq!(m.get_action(KeyCode::F(5), none), Some(Action::Copy));
    assert_eq!(m.get_action(KeyCode::F(6), none), Some(Action::Move));
    assert_eq!(m.get_action(KeyCode::F(7), none), Some(Action::CreateDirectory));
    assert_eq!(m.get_action(KeyCode::F(8), none), Some(Action::Delete));
    assert_eq!(m.get_action(KeyCode::F(1), none), Some(Action::Help));
    assert_eq!(m.get_action(KeyCode::Tab, none), Some(Action::SwitchPanel));
    assert_eq!(m.get_action(KeyCode::Backspace, none), Some(Action::NavigateToParent));
    assert_eq!(m.get_action(KeyCode::Home, none), Some(Action::NavigateHome));
}

#[test]
fn unbound_key_has_no_action() {
    let m = ShortcutManager::new();
    assert_eq!(m.get_action(KeyCode::Char('z'), mods(true, false, true)), None);
    assert_eq!(m.get_action(KeyCode::Char('y'), KeyModifiers::none()), None);
}

#[test]
fn custom_binding_wins_and_removal_falls_back() {
    let mut m = ShortcutManager::new();
    let b = KeyBinding::new(KeyCode::F(1), KeyModifiers::none());
    m.add_custom_shortcut(b.clone(), Action::Quit);
    assert_eq!(m.get_action(KeyCode::F(1), KeyModifiers::none()), Some(Action::Quit));
    m.remove_custom_shortcut(&b);
    assert_eq!(m.get_action(KeyCode::F(1), KeyModifiers::none()), Some(Action::Help));
}

#[test]
fn vim_modes() {
    let mut m = ShortcutManager::new();
    assert_eq!(m.get_vim_mode(), None);
    m.change_vim_mode(VimMode::Insert);
    assert_eq!(m.get_vim_mode(), None);
    m.set_vim_mode(true);
    assert_eq!(m.get_vim_mode(), Some(VimMode::Normal));
    assert_eq!(m.get_action(KeyCode::Char('j'), KeyModifiers::none()), Some(Action::NavigateDown));
    assert_eq!(m.get_action(KeyCode::Char('G'), mods(false, true, false)), Some(Action::VimGoToBottom));
    m.change_vim_mode(VimMode::Command);
    assert_eq!(m.get_action(KeyCode::Enter, KeyModifiers::none()), Some(Action::ExecuteCommand));
    assert_eq!(m.get_action(KeyCode::Esc, mods(true, false, false)), Some(Action::VimEnterNormal));
    m.change_vim_mode(VimMode::Insert);
    // In insert mode only Esc is modal; other keys use the keymap.
    assert_eq!(m.get_action(KeyCode::F(2), KeyModifiers::none()), Some(Action::Rename));
    m.set_vim_mode(false);
    assert_eq!(m.get_vim_mode(), None);
}

#[test]
fn binding_names_and_display() {
    let b = KeyBinding::new(KeyCode::Char('n'), mods(true, true, false));
    assert_eq!(b.code, "n");
    assert_eq!(b.modifiers, vec!["Ctrl".to_string(), "Shift".to_string()]);
    assert_eq!(b.to_display_string(), "Ctrl+Shift+n");
    assert!(b.matches(KeyCode::Char('n'), mods(true, true, false)));
    assert!(!b.matches(KeyCode::Char('n'), mods(true, false, false)));
    let plain = KeyBinding::new(KeyCode::PageDown, KeyModifiers::none());
    assert_eq!(plain.to_display_string(), "PageDown");
    let other = KeyBinding::new(KeyCode::Other, mods(false, false, true));
    assert_eq!(other.to_display_string(), "Alt+Unknown");
}

#[test]
fn all_shortcuts_sorted_by_display() {
    let mut m = ShortcutManager::new();
    m.add_custom_shortcut(KeyBinding::new(KeyCode::Char('z'), KeyModifiers::none()), Action::Refresh);
    let all = m.get_all_shortcuts();
    let shown: Vec<String> = all.iter().map(|(b, _)| b.to_display_string()).collect();
    let mut sorted = shown.clone();
    sorted.sort();
    assert_eq!(shown, sorted);
    assert!(all.iter().any(|(b, a)| b.code == "z" && *a == Action::Refresh));
}

#[test]
fn action_descriptions() {
    assert_eq!(ShortcutManager::get_action_description(&Action::NavigateUp), "Move cursor up");
    assert_eq!(ShortcutManager::get_action_description(&Action::SwitchPanel), "Switch active panel");
    assert_eq!(ShortcutManager::get_action_description(&Action::GoToBookmark(2)), "Action");
}

#[test]
fn adding_then_removing_a_binding_restores_the_keymap() {
    let mut m = ShortcutManager::new();
    let before: Vec<String> = m.get_all_shortcuts().iter().map(|(b, a)| format!("{} {:?}", b.to_display_string(), a)).collect();
    let b = KeyBinding::new(KeyCode::F(5), KeyModifiers::none());
    m.add_custom_shortcut(b.clone(), Action::Quit);
    assert_eq!(m.get_action(KeyCode::F(5), KeyModifiers::none()), Some(Action::Quit));
    m.remove_custom_shortcut(&b);
    let after: Vec<String> = m.get_all_shortcuts().iter().map(|(b, a)| format!("{} {:?}", b.to_display_string(), a)).collect();
    assert_eq!(after, before);
    assert_eq!(m.get_action(KeyCode::F(5), KeyModifiers::none()), Some(Action::Copy));
}
