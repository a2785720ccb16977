use cortex::config::ColorConfig;
use cortex::fs::FileType;
use cortex::theme::{apply_color_configuration, parse_color, Color, Style, Theme, ThemeManager, ThemeMode};

#[test]
fn dark_theme_colours() {
    let t = Theme::dark();
    assert_eq!(t.mode, ThemeMode::Dark);
    assert_eq!(t.background, Color::Rgb(29, 32, 33));
    assert_eq!(t.directory, Color::Rgb(189, 147, 249));
    assert_eq!(t.highlight_text, Color::Rgb(139, 233, 253));
}

#[test]
fn each_palette_has_its_mode() {
    assert_eq!(Theme::light().mode, ThemeMode::Light);
    assert_eq!(Theme::gruvbox().mode, ThemeMode::Gruvbox);
    assert_eq!(Theme::nord().mode, ThemeMode::Nord);
    assert_eq!(Theme::modern().mode, ThemeMode::Modern);
    assert_eq!(Theme::light().background, Color::Rgb(255, 255, 255));
}

#[test]
fn file_style_by_kind_and_extension() {
    let t = Theme::dark();
    let rs = String::from("rs");
    let md = String::from("md");
    let png = String::from("png");
    let zip = String::from("zip");
    let xyz = String::from("xyz");
    assert_eq!(t.get_file_style(&FileType::File, Some(&rs)).fg, Some(t.source_code));
    assert_eq!(t.get_file_style(&FileType::File, Some(&md)).fg, Some(t.document));
    assert_eq!(t.get_file_style(&FileType::File, Some(&png)).fg, Some(t.image));
    assert_eq!(t.get_file_style(&FileType::File, Some(&zip)).fg, Some(t.archive));
    assert_eq!(t.get_file_style(&FileType::File, Some(&xyz)).fg, Some(t.regular_file));
    assert_eq!(t.get_file_style(&FileType::File, None).fg, Some(t.regular_file));
    assert_eq!(t.get_file_style(&FileType::Directory, Some(&rs)).fg, Some(t.directory));
    assert_eq!(t.get_file_style(&FileType::Symlink, None).fg, Some(t.symlink));
    assert_eq!(t.get_file_style(&FileType::Other, None).fg, Some(t.dim_text));
    assert_eq!(t.get_file_style(&FileType::Other, None).bg, None);
}

#[test]
fn selection_marked_and_border_styles() {
    let t = Theme::nord();
    let s = t.get_selected_style(true);
    assert_eq!(s, Style { fg: Some(t.selected_fg), bg: Some(t.selected_bg), bold: true, underlined: false });
    let s = t.get_selected_style(false);
    assert_eq!(s.bg, Some(t.inactive_selected_bg));
    assert!(!s.bold);
    let m = t.get_marked_style();
    assert!(m.bold && m.underlined);
    assert_eq!(m.fg, Some(t.marked));
    assert_eq!(t.get_border_style(true).fg, Some(t.active_border));
    assert!(t.get_border_style(true).bold);
    assert_eq!(t.get_border_style(false), Style { fg: Some(t.inactive_border), ..Style::default() });
}

#[test]
fn manager_switches_and_rotates() {
    let mut m = ThemeManager::new(ThemeMode::Nord, 0);
    assert_eq!(m.get_current_theme().mode, ThemeMode::Nord);
    m.next_theme();
    assert_eq!(m.get_current_theme().mode, ThemeMode::Light);
    m.previous_theme();
    assert_eq!(m.get_current_theme().mode, ThemeMode::Dark);
    m.previous_theme();
    assert_eq!(m.get_current_theme().mode, ThemeMode::Modern);
    m.next_theme();
    assert_eq!(m.get_current_theme().mode, ThemeMode::Dark);
    m.set_theme(ThemeMode::Gruvbox, 10);
    assert_eq!(*m.get_current_theme(), Theme::gruvbox());
    m.next_theme();
    m.set_theme(ThemeMode::Random, 20);
    assert_eq!(m.get_current_theme().mode, ThemeMode::Light);
    m.update(10_000);
    assert_eq!(m.get_current_theme().mode, ThemeMode::Light);
}

#[test]
fn random_mode_starts_dark() {
    let m = ThemeManager::new(ThemeMode::Random, 5);
    assert_eq!(*m.get_current_theme(), Theme::dark());
}

#[test]
fn colour_names() {
    assert_eq!(parse_color("Red"), Some(Color::Red));
    assert_eq!(parse_color("GREY"), Some(Color::Gray));
    assert_eq!(parse_color("dark_gray"), Some(Color::DarkGray));
    assert_eq!(parse_color("light_magenta"), Some(Color::LightMagenta));
    assert_eq!(parse_color("#ff0000"), None);
}

#[test]
fn configured_colours_override_the_theme() {
    let mut m = ThemeManager::new(ThemeMode::Dark, 0);
    let colors = ColorConfig {
        selection_bg: "blue".to_string(),
        directory_fg: "nonsense".to_string(),
        executable_fg: "Light_Green".to_string(),
        symlink_fg: "cyan".to_string(),
    };
    apply_color_configuration(&mut m, &colors);
    let t = m.get_current_theme();
    assert_eq!(t.selected_bg, Color::Blue);
    assert_eq!(t.directory, Theme::dark().directory);
    assert_eq!(t.executable, Color::LightGreen);
    assert_eq!(t.symlink, Color::Cyan);
    assert_eq!(t.background, Theme::dark().background);
}
