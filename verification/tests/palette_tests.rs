use cortex::commands::{parse_command, CommandType};
use cortex::palette::{CommandCategory, CommandPalette};

#[test]
fn palette_lists_commands_by_category_then_name() {
    let p = CommandPalette::new();
    let names: Vec<&str> = p.get_filtered_commands().iter().map(|c| c.name.as_str()).collect();
    assert_eq!(names.len(), 26);
    assert_eq!(names[0], "/about");
    assert_eq!(names[1], "/keys");
    assert_eq!(names[2], "/back");
    assert_eq!(*names.last().unwrap(), "/sync");
    assert_eq!(p.get_selected_index(), 0);
    assert_eq!(p.get_selected().unwrap().name, "/about");
}

#[test]
fn palette_filter_puts_name_matches_first() {
    let mut p = CommandPalette::new();
    p.filter("/fi");
    let names: Vec<&str> = p.get_filtered_commands().iter().map(|c| c.name.as_str()).collect();
    // "/filter" and "/find" start with "fi"; "/grep" ("Search in file contents")
    // and others match in their descriptions.
    assert_eq!(names[0], "/filter");
    assert_eq!(names[1], "/find");
    assert!(names.contains(&"/grep"));
    assert!(!names.contains(&"/exit"));
}

#[test]
fn palette_filter_by_category_and_reset() {
    let mut p = CommandPalette::new();
    p.filter("HELP");
    let names: Vec<&str> = p.get_filtered_commands().iter().map(|c| c.name.as_str()).collect();
    assert_eq!(names, vec!["/about", "/keys"]);
    p.move_selection_down();
    p.move_selection_down();
    assert_eq!(p.get_selected_index(), 1);
    p.filter("nothing matches this");
    assert_eq!(p.get_filtered_commands().len(), 0);
    assert!(p.get_selected().is_none());
    p.filter("/");
    assert_eq!(p.get_filtered_commands().len(), 26);
    p.move_selection_up();
    p.move_selection_up();
    assert_eq!(p.get_selected_index(), 0);
    p.reset();
    assert_eq!(p.get_filtered_commands().len(), 26);
}

#[test]
fn palette_groups() {
    let p = CommandPalette::new();
    let groups = p.get_grouped_commands();
    assert_eq!(groups.len(), 5);
    let help = groups.iter().find(|(c, _)| *c == CommandCategory::Help).unwrap();
    assert_eq!(help.1.len(), 2);
    let total: usize = groups.iter().map(|(_, v)| v.len()).sum();
    assert_eq!(total, 26);
    assert_eq!(CommandCategory::FileOperations.as_str(), "File Operations");
}

#[test]
fn parse_command_kinds() {
    match parse_command("/reload") {
        CommandType::Special(s) => assert_eq!(s, "reload"),
        _ => panic!("expected a special command"),
    }
    match parse_command(":git status") {
        CommandType::Plugin(s) => assert_eq!(s, "git status"),
        _ => panic!("expected a plugin command"),
    }
    match parse_command("ls -la") {
        CommandType::Shell(s) => assert_eq!(s, "ls -la"),
        _ => panic!("expected a shell command"),
    }
    match parse_command("") {
        CommandType::Shell(s) => assert_eq!(s, ""),
        _ => panic!("expected a shell command"),
    }
}

#[test]
fn reset_shows_the_new_listing() {
    let fresh: Vec<String> = CommandPalette::new().get_filtered_commands().iter().map(|c| c.name.clone()).collect();
    let mut p = CommandPalette::new();
    p.filter("copy");
    p.move_selection_down();
    p.reset();
    let names: Vec<String> = p.get_filtered_commands().iter().map(|c| c.name.clone()).collect();
    assert_eq!(names, fresh);
    assert_eq!(names.len(), 26);
    assert_eq!(p.get_selected_index(), 0);
}
