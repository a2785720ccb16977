//! Colour themes: the palettes, the style of each kind of entry, and the
//! manager that switches and rotates themes.

use vstd::prelude::*;
use crate::fs::FileType;
use crate::text;
use crate::config::ColorConfig;

verus! {

/// The colour schemes of the interface.
#[derive(Debug, Clone, Copy, PartialEq, Eq, Structural)]
pub enum ThemeMode {
    Dark,
    Light,
    Gruvbox,
    Nord,
    Modern,
    Random,
}

/// A terminal colour: the terminal's default, one of the sixteen named
/// colours, a colour given by its red, green and blue parts, or an entry of
/// the 256-colour palette.
#[derive(Debug, Clone, Copy, PartialEq, Eq, Structural)]
pub enum Color {
    Reset,
    Black,
    Red,
    Green,
    Yellow,
    Blue,
    Magenta,
    Cyan,
    Gray,
    DarkGray,
    LightRed,
    LightGreen,
    LightYellow,
    LightBlue,
    LightMagenta,
    LightCyan,
    White,
    Rgb(u8, u8, u8),
    Indexed(u8),
}

/// How text is drawn: foreground and background colour (none keeps the
/// terminal's), and the bold and underlined modifiers.
#[derive(Debug, Clone, Copy, PartialEq, Eq, Structural)]
pub struct Style {
    pub fg: Option<Color>,
    pub bg: Option<Color>,
    pub bold: bool,
    pub underlined: bool,
}

/// The plain style: no colours and no modifiers.
pub open spec fn plain_style() -> Style {
    Style { fg: None, bg: None, bold: false, underlined: false }
}

impl Default for Style {
    fn default() -> (r: Self)
        ensures
            r == plain_style(),
    {
        Style { fg: None, bg: None, bold: false, underlined: false }
    }
}

/// A colour theme: its mode and the colour of each part of the interface.
#[derive(Debug, Clone, Copy, PartialEq, Eq, Structural)]
pub struct Theme {
    pub mode: ThemeMode,
    pub background: Color,
    pub panel_background: Color,
    pub active_border: Color,
    pub inactive_border: Color,
    pub directory: Color,
    pub symlink: Color,
    pub executable: Color,
    pub regular_file: Color,
    pub source_code: Color,
    pub document: Color,
    pub image: Color,
    pub archive: Color,
    pub hidden: Color,
    pub selected_bg: Color,
    pub selected_fg: Color,
    pub inactive_selected_bg: Color,
    pub marked: Color,
    pub status_bar_bg: Color,
    pub status_bar_fg: Color,
    pub command_line_bg: Color,
    pub command_line_fg: Color,
    pub error: Color,
    pub warning: Color,
    pub success: Color,
    pub info: Color,
    pub normal_text: Color,
    pub dim_text: Color,
    pub highlight_text: Color,
}

/// The dark palette.
pub open spec fn dark_palette() -> Theme {
    Theme {
        mode: ThemeMode::Dark,
        background: Color::Rgb(29, 32, 33),
        panel_background: Color::Rgb(33, 36, 37),
        active_border: Color::Rgb(139, 233, 253),
        inactive_border: Color::Rgb(68, 71, 90),
        directory: Color::Rgb(189, 147, 249),
        symlink: Color::Rgb(139, 233, 253),
        executable: Color::Rgb(80, 250, 123),
        regular_file: Color::Rgb(248, 248, 242),
        source_code: Color::Rgb(139, 233, 253),
        document: Color::Rgb(241, 250, 140),
        image: Color::Rgb(255, 121, 198),
        archive: Color::Rgb(255, 184, 108),
        hidden: Color::Rgb(98, 114, 164),
        selected_bg: Color::Rgb(68, 71, 90),
        selected_fg: Color::Rgb(248, 248, 242),
        inactive_selected_bg: Color::Rgb(44, 47, 62),
        marked: Color::Rgb(241, 250, 140),
        status_bar_bg: Color::Rgb(40, 42, 54),
        status_bar_fg: Color::Rgb(248, 248, 242),
        command_line_bg: Color::Rgb(33, 34, 44),
        command_line_fg: Color::Rgb(248, 248, 242),
        error: Color::Rgb(255, 85, 85),
        warning: Color::Rgb(255, 184, 108),
        success: Color::Rgb(80, 250, 123),
        info: Color::Rgb(139, 233, 253),
        normal_text: Color::Rgb(248, 248, 242),
        dim_text: Color::Rgb(98, 114, 164),
        highlight_text: Color::Rgb(139, 233, 253),
    }
}

/// The light palette.
pub open spec fn light_palette() -> Theme {
    Theme {
        mode: ThemeMode::Light,
        background: Color::Rgb(255, 255, 255),
        panel_background: Color::Rgb(250, 251, 252),
        active_border: Color::Rgb(36, 41, 47),
        inactive_border: Color::Rgb(208, 215, 222),
        directory: Color::Rgb(7, 54, 110),
        symlink: Color::Rgb(0, 91, 93),
        executable: Color::Rgb(22, 98, 22),
        regular_file: Color::Rgb(36, 41, 47),
        source_code: Color::Rgb(0, 48, 110),
        document: Color::Rgb(133, 65, 0),
        image: Color::Rgb(102, 31, 117),
        archive: Color::Rgb(157, 42, 53),
        hidden: Color::Rgb(88, 96, 105),
        selected_bg: Color::Rgb(210, 227, 252),
        selected_fg: Color::Rgb(24, 28, 33),
        inactive_selected_bg: Color::Rgb(234, 238, 242),
        marked: Color::Rgb(255, 235, 180),
        status_bar_bg: Color::Rgb(246, 248, 250),
        status_bar_fg: Color::Rgb(36, 41, 47),
        command_line_bg: Color::Rgb(255, 255, 255),
        command_line_fg: Color::Rgb(24, 28, 33),
        error: Color::Rgb(157, 42, 53),
        warning: Color::Rgb(133, 77, 14),
        success: Color::Rgb(28, 117, 48),
        info: Color::Rgb(0, 71, 122),
        normal_text: Color::Rgb(24, 28, 33),
        dim_text: Color::Rgb(88, 96, 105),
        highlight_text: Color::Rgb(0, 48, 110),
    }
}

/// The gruvbox palette.
pub open spec fn gruvbox_palette() -> Theme {
    Theme {
        mode: ThemeMode::Gruvbox,
        background: Color::Rgb(29, 32, 33),
        panel_background: Color::Rgb(40, 40, 40),
        active_border: Color::Rgb(251, 184, 108),
        inactive_border: Color::Rgb(124, 111, 100),
        directory: Color::Rgb(131, 165, 152),
        symlink: Color::Rgb(142, 192, 124),
        executable: Color::Rgb(184, 187, 38),
        regular_file: Color::Rgb(235, 219, 178),
        source_code: Color::Rgb(142, 192, 124),
        document: Color::Rgb(251, 184, 108),
        image: Color::Rgb(211, 134, 155),
        archive: Color::Rgb(204, 36, 29),
        hidden: Color::Rgb(124, 111, 100),
        selected_bg: Color::Rgb(60, 56, 54),
        selected_fg: Color::Rgb(251, 241, 199),
        inactive_selected_bg: Color::Rgb(50, 48, 47),
        marked: Color::Rgb(250, 189, 47),
        status_bar_bg: Color::Rgb(40, 40, 40),
        status_bar_fg: Color::Rgb(235, 219, 178),
        command_line_bg: Color::Rgb(29, 32, 33),
        command_line_fg: Color::Rgb(235, 219, 178),
        error: Color::Rgb(204, 36, 29),
        warning: Color::Rgb(250, 189, 47),
        success: Color::Rgb(152, 151, 26),
        info: Color::Rgb(69, 133, 136),
        normal_text: Color::Rgb(235, 219, 178),
        dim_text: Color::Rgb(124, 111, 100),
        highlight_text: Color::Rgb(251, 184, 108),
    }
}

/// The nord palette.
pub open spec fn nord_palette() -> Theme {
    Theme {
        mode: ThemeMode::Nord,
        background: Color::Rgb(46, 52, 64),
        panel_background: Color::Rgb(59, 66, 82),
        active_border: Color::Rgb(136, 192, 208),
        inactive_border: Color::Rgb(76, 86, 106),
        directory: Color::Rgb(136, 192, 208),
        symlink: Color::Rgb(143, 188, 187),
        executable: Color::Rgb(163, 190, 140),
        regular_file: Color::Rgb(216, 222, 233),
        source_code: Color::Rgb(163, 190, 140),
        document: Color::Rgb(235, 203, 139),
        image: Color::Rgb(180, 142, 173),
        archive: Color::Rgb(191, 97, 106),
        hidden: Color::Rgb(76, 86, 106),
        selected_bg: Color::Rgb(67, 76, 94),
        selected_fg: Color::Rgb(236, 239, 244),
        inactive_selected_bg: Color::Rgb(59, 66, 82),
        marked: Color::Rgb(235, 203, 139),
        status_bar_bg: Color::Rgb(46, 52, 64),
        status_bar_fg: Color::Rgb(216, 222, 233),
        command_line_bg: Color::Rgb(46, 52, 64),
        command_line_fg: Color::Rgb(216, 222, 233),
        error: Color::Rgb(191, 97, 106),
        warning: Color::Rgb(235, 203, 139),
        success: Color::Rgb(163, 190, 140),
        info: Color::Rgb(129, 161, 193),
        normal_text: Color::Rgb(216, 222, 233),
        dim_text: Color::Rgb(76, 86, 106),
        highlight_text: Color::Rgb(136, 192, 208),
    }
}

/// The modern palette.
pub open spec fn modern_palette() -> Theme {
    Theme {
        mode: ThemeMode::Modern,
        background: Color::Rgb(24, 26, 33),
        panel_background: Color::Rgb(30, 33, 41),
        active_border: Color::Rgb(100, 255, 218),
        inactive_border: Color::Rgb(61, 68, 85),
        directory: Color::Rgb(130, 170, 255),
        symlink: Color::Rgb(100, 255, 218),
        executable: Color::Rgb(134, 239, 172),
        regular_file: Color::Rgb(199, 210, 254),
        source_code: Color::Rgb(129, 140, 248),
        document: Color::Rgb(253, 224, 71),
        image: Color::Rgb(244, 114, 182),
        archive: Color::Rgb(251, 146, 60),
        hidden: Color::Rgb(100, 116, 139),
        selected_bg: Color::Rgb(56, 58, 89),
        selected_fg: Color::Rgb(241, 245, 249),
        inactive_selected_bg: Color::Rgb(39, 46, 58),
        marked: Color::Rgb(253, 224, 71),
        status_bar_bg: Color::Rgb(30, 33, 41),
        status_bar_fg: Color::Rgb(199, 210, 254),
        command_line_bg: Color::Rgb(24, 26, 33),
        command_line_fg: Color::Rgb(199, 210, 254),
        error: Color::Rgb(248, 113, 113),
        warning: Color::Rgb(251, 191, 36),
        success: Color::Rgb(134, 239, 172),
        info: Color::Rgb(100, 255, 218),
        normal_text: Color::Rgb(199, 210, 254),
        dim_text: Color::Rgb(100, 116, 139),
        highlight_text: Color::Rgb(100, 255, 218),
    }
}

/// The palette a mode selects (random starts from the dark palette).
pub open spec fn palette(mode: ThemeMode) -> Theme {
    match mode {
        ThemeMode::Dark => dark_palette(),
        ThemeMode::Light => light_palette(),
        ThemeMode::Gruvbox => gruvbox_palette(),
        ThemeMode::Nord => nord_palette(),
        ThemeMode::Modern => modern_palette(),
        ThemeMode::Random => dark_palette(),
    }
}

/// The themes a manager rotates through, in order.
pub open spec fn rotation() -> Seq<Theme> {
    seq![dark_palette(), light_palette(), gruvbox_palette(), nord_palette(), modern_palette()]
}

/// The position after `i` in the rotation.
pub open spec fn next_index(i: nat) -> nat {
    (i + 1) % 5
}

/// The position before `i` in the rotation.
pub open spec fn previous_index(i: nat) -> nat {
    if i == 0 {
        4
    } else {
        (i - 1) as nat
    }
}

/// Extensions of source code files.
pub open spec fn is_source_extension(e: Seq<char>) -> bool {
    e == "rs"@ || e == "go"@ || e == "py"@ || e == "js"@ || e == "ts"@ || e == "java"@ || e == "c"@
        || e == "cpp"@ || e == "h"@ || e == "hpp"@ || e == "cs"@ || e == "swift"@ || e == "kt"@
        || e == "scala"@ || e == "rb"@ || e == "php"@ || e == "lua"@ || e == "sh"@ || e == "bash"@
}

/// Extensions of documents.
pub open spec fn is_document_extension(e: Seq<char>) -> bool {
    e == "md"@ || e == "txt"@ || e == "doc"@ || e == "docx"@ || e == "pdf"@ || e == "odt"@ || e == "rtf"@
}

/// Extensions of images.
pub open spec fn is_image_extension(e: Seq<char>) -> bool {
    e == "jpg"@ || e == "jpeg"@ || e == "png"@ || e == "gif"@ || e == "svg"@ || e == "bmp"@ || e == "ico"@
        || e == "webp"@
}

/// Extensions of archives.
pub open spec fn is_archive_extension(e: Seq<char>) -> bool {
    e == "zip"@ || e == "tar"@ || e == "gz"@ || e == "bz2"@ || e == "xz"@ || e == "rar"@ || e == "7z"@
        || e == "deb"@ || e == "rpm"@
}

/// The colour of a regular file with the given extension.
pub open spec fn file_color(t: Theme, ext: Option<Seq<char>>) -> Color {
    match ext {
        Some(e) => if is_source_extension(e) {
            t.source_code
        } else if is_document_extension(e) {
            t.document
        } else if is_image_extension(e) {
            t.image
        } else if is_archive_extension(e) {
            t.archive
        } else {
            t.regular_file
        },
        None => t.regular_file,
    }
}

/// The colour of an entry of the given kind and extension.
pub open spec fn entry_color(t: Theme, kind: FileType, ext: Option<Seq<char>>) -> Color {
    match kind {
        FileType::Directory => t.directory,
        FileType::Symlink => t.symlink,
        FileType::File => file_color(t, ext),
        FileType::Other => t.dim_text,
    }
}

/// The characters of an optional string.
pub open spec fn optional_view(s: Option<&String>) -> Option<Seq<char>> {
    match s {
        Some(e) => Some(e@),
        None => None,
    }
}

/// The style with only a foreground colour.
pub open spec fn fg_style(c: Color) -> Style {
    Style { fg: Some(c), bg: None, bold: false, underlined: false }
}

impl Theme {
    /// The dark theme.
    pub fn dark() -> (r: Self)
        ensures
            r == dark_palette(),
    {
        Theme {
            mode: ThemeMode::Dark,
            background: Color::Rgb(29, 32, 33),
            panel_background: Color::Rgb(33, 36, 37),
            active_border: Color::Rgb(139, 233, 253),
            inactive_border: Color::Rgb(68, 71, 90),
            directory: Color::Rgb(189, 147, 249),
            symlink: Color::Rgb(139, 233, 253),
            executable: Color::Rgb(80, 250, 123),
            regular_file: Color::Rgb(248, 248, 242),
            source_code: Color::Rgb(139, 233, 253),
            document: Color::Rgb(241, 250, 140),
            image: Color::Rgb(255, 121, 198),
            archive: Color::Rgb(255, 184, 108),
            hidden: Color::Rgb(98, 114, 164),
            selected_bg: Color::Rgb(68, 71, 90),
            selected_fg: Color::Rgb(248, 248, 242),
            inactive_selected_bg: Color::Rgb(44, 47, 62),
            marked: Color::Rgb(241, 250, 140),
            status_bar_bg: Color::Rgb(40, 42, 54),
            status_bar_fg: Color::Rgb(248, 248, 242),
            command_line_bg: Color::Rgb(33, 34, 44),
            command_line_fg: Color::Rgb(248, 248, 242),
            error: Color::Rgb(255, 85, 85),
            warning: Color::Rgb(255, 184, 108),
            success: Color::Rgb(80, 250, 123),
            info: Color::Rgb(139, 233, 253),
            normal_text: Color::Rgb(248, 248, 242),
            dim_text: Color::Rgb(98, 114, 164),
            highlight_text: Color::Rgb(139, 233, 253),
        }
    }

    /// The light theme.
    pub fn light() -> (r: Self)
        ensures
            r == light_palette(),
    {
        Theme {
            mode: ThemeMode::Light,
            background: Color::Rgb(255, 255, 255),
            panel_background: Color::Rgb(250, 251, 252),
            active_border: Color::Rgb(36, 41, 47),
            inactive_border: Color::Rgb(208, 215, 222),
            directory: Color::Rgb(7, 54, 110),
            symlink: Color::Rgb(0, 91, 93),
            executable: Color::Rgb(22, 98, 22),
            regular_file: Color::Rgb(36, 41, 47),
            source_code: Color::Rgb(0, 48, 110),
            document: Color::Rgb(133, 65, 0),
            image: Color::Rgb(102, 31, 117),
            archive: Color::Rgb(157, 42, 53),
            hidden: Color::Rgb(88, 96, 105),
            selected_bg: Color::Rgb(210, 227, 252),
            selected_fg: Color::Rgb(24, 28, 33),
            inactive_selected_bg: Color::Rgb(234, 238, 242),
            marked: Color::Rgb(255, 235, 180),
            status_bar_bg: Color::Rgb(246, 248, 250),
            status_bar_fg: Color::Rgb(36, 41, 47),
            command_line_bg: Color::Rgb(255, 255, 255),
            command_line_fg: Color::Rgb(24, 28, 33),
            error: Color::Rgb(157, 42, 53),
            warning: Color::Rgb(133, 77, 14),
            success: Color::Rgb(28, 117, 48),
            info: Color::Rgb(0, 71, 122),
            normal_text: Color::Rgb(24, 28, 33),
            dim_text: Color::Rgb(88, 96, 105),
            highlight_text: Color::Rgb(0, 48, 110),
        }
    }

    /// The gruvbox theme.
    pub fn gruvbox() -> (r: Self)
        ensures
            r == gruvbox_palette(),
    {
        Theme {
            mode: ThemeMode::Gruvbox,
            background: Color::Rgb(29, 32, 33),
            panel_background: Color::Rgb(40, 40, 40),
            active_border: Color::Rgb(251, 184, 108),
            inactive_border: Color::Rgb(124, 111, 100),
            directory: Color::Rgb(131, 165, 152),
            symlink: Color::Rgb(142, 192, 124),
            executable: Color::Rgb(184, 187, 38),
            regular_file: Color::Rgb(235, 219, 178),
            source_code: Color::Rgb(142, 192, 124),
            document: Color::Rgb(251, 184, 108),
            image: Color::Rgb(211, 134, 155),
            archive: Color::Rgb(204, 36, 29),
            hidden: Color::Rgb(124, 111, 100),
            selected_bg: Color::Rgb(60, 56, 54),
            selected_fg: Color::Rgb(251, 241, 199),
            inactive_selected_bg: Color::Rgb(50, 48, 47),
            marked: Color::Rgb(250, 189, 47),
            status_bar_bg: Color::Rgb(40, 40, 40),
            status_bar_fg: Color::Rgb(235, 219, 178),
            command_line_bg: Color::Rgb(29, 32, 33),
            command_line_fg: Color::Rgb(235, 219, 178),
            error: Color::Rgb(204, 36, 29),
            warning: Color::Rgb(250, 189, 47),
            success: Color::Rgb(152, 151, 26),
            info: Color::Rgb(69, 133, 136),
            normal_text: Color::Rgb(235, 219, 178),
            dim_text: Color::Rgb(124, 111, 100),
            highlight_text: Color::Rgb(251, 184, 108),
        }
    }

    /// The nord theme.
    pub fn nord() -> (r: Self)
        ensures
            r == nord_palette(),
    {
        Theme {
            mode: ThemeMode::Nord,
            background: Color::Rgb(46, 52, 64),
            panel_background: Color::Rgb(59, 66, 82),
            active_border: Color::Rgb(136, 192, 208),
            inactive_border: Color::Rgb(76, 86, 106),
            directory: Color::Rgb(136, 192, 208),
            symlink: Color::Rgb(143, 188, 187),
            executable: Color::Rgb(163, 190, 140),
            regular_file: Color::Rgb(216, 222, 233),
            source_code: Color::Rgb(163, 190, 140),
            document: Color::Rgb(235, 203, 139),
            image: Color::Rgb(180, 142, 173),
            archive: Color::Rgb(191, 97, 106),
            hidden: Color::Rgb(76, 86, 106),
            selected_bg: Color::Rgb(67, 76, 94),
            selected_fg: Color::Rgb(236, 239, 244),
            inactive_selected_bg: Color::Rgb(59, 66, 82),
            marked: Color::Rgb(235, 203, 139),
            status_bar_bg: Color::Rgb(46, 52, 64),
            status_bar_fg: Color::Rgb(216, 222, 233),
            command_line_bg: Color::Rgb(46, 52, 64),
            command_line_fg: Color::Rgb(216, 222, 233),
            error: Color::Rgb(191, 97, 106),
            warning: Color::Rgb(235, 203, 139),
            success: Color::Rgb(163, 190, 140),
            info: Color::Rgb(129, 161, 193),
            normal_text: Color::Rgb(216, 222, 233),
            dim_text: Color::Rgb(76, 86, 106),
            highlight_text: Color::Rgb(136, 192, 208),
        }
    }

    /// The modern theme.
    pub fn modern() -> (r: Self)
        ensures
            r == modern_palette(),
    {
        Theme {
            mode: ThemeMode::Modern,
            background: Color::Rgb(24, 26, 33),
            panel_background: Color::Rgb(30, 33, 41),
            active_border: Color::Rgb(100, 255, 218),
            inactive_border: Color::Rgb(61, 68, 85),
            directory: Color::Rgb(130, 170, 255),
            symlink: Color::Rgb(100, 255, 218),
            executable: Color::Rgb(134, 239, 172),
            regular_file: Color::Rgb(199, 210, 254),
            source_code: Color::Rgb(129, 140, 248),
            document: Color::Rgb(253, 224, 71),
            image: Color::Rgb(244, 114, 182),
            archive: Color::Rgb(251, 146, 60),
            hidden: Color::Rgb(100, 116, 139),
            selected_bg: Color::Rgb(56, 58, 89),
            selected_fg: Color::Rgb(241, 245, 249),
            inactive_selected_bg: Color::Rgb(39, 46, 58),
            marked: Color::Rgb(253, 224, 71),
            status_bar_bg: Color::Rgb(30, 33, 41),
            status_bar_fg: Color::Rgb(199, 210, 254),
            command_line_bg: Color::Rgb(24, 26, 33),
            command_line_fg: Color::Rgb(199, 210, 254),
            error: Color::Rgb(248, 113, 113),
            warning: Color::Rgb(251, 191, 36),
            success: Color::Rgb(134, 239, 172),
            info: Color::Rgb(100, 255, 218),
            normal_text: Color::Rgb(199, 210, 254),
            dim_text: Color::Rgb(100, 116, 139),
            highlight_text: Color::Rgb(100, 255, 218),
        }
    }

    /// The style of an entry: the colour of its kind, and for a regular file
    /// that of its extension's group (source code, document, image,
    /// archive, or none of them).
    pub fn get_file_style(&self, file_type: &FileType, extension: Option<&String>) -> (r: Style)
        ensures
            r == fg_style(entry_color(*self, *file_type, optional_view(extension))),
    {
        let color = match file_type {
            FileType::Directory => self.directory,
            FileType::Symlink => self.symlink,
            FileType::File => match extension {
                Some(ext) => {
                    let e = ext.as_str();
                    if is_source(e) {
                        self.source_code
                    } else if is_document(e) {
                        self.document
                    } else if is_image(e) {
                        self.image
                    } else if is_archive(e) {
                        self.archive
                    } else {
                        self.regular_file
                    }
                },
                None => self.regular_file,
            },
            FileType::Other => self.dim_text,
        };
        Style { fg: Some(color), bg: None, bold: false, underlined: false }
    }

    /// The style of the selected entry: bold on the selection colours in
    /// the active panel, on the dimmer selection background otherwise.
    pub fn get_selected_style(&self, is_active: bool) -> (r: Style)
        ensures
            r == (if is_active {
                Style { fg: Some(self.selected_fg), bg: Some(self.selected_bg), bold: true, underlined: false }
            } else {
                Style { fg: Some(self.selected_fg), bg: Some(self.inactive_selected_bg), bold: false, underlined: false }
            }),
    {
        if is_active {
            Style { fg: Some(self.selected_fg), bg: Some(self.selected_bg), bold: true, underlined: false }
        } else {
            Style { fg: Some(self.selected_fg), bg: Some(self.inactive_selected_bg), bold: false, underlined: false }
        }
    }

    /// The style of a marked entry: the marked colour, bold and underlined.
    pub fn get_marked_style(&self) -> (r: Style)
        ensures
            r == (Style { fg: Some(self.marked), bg: None, bold: true, underlined: true }),
    {
        Style { fg: Some(self.marked), bg: None, bold: true, underlined: true }
    }

    /// The style of a panel border: bold in the active colour for the active
    /// panel, the inactive colour otherwise.
    pub fn get_border_style(&self, is_active: bool) -> (r: Style)
        ensures
            r == (if is_active {
                Style { fg: Some(self.active_border), bg: None, bold: true, underlined: false }
            } else {
                fg_style(self.inactive_border)
            }),
    {
        if is_active {
            Style { fg: Some(self.active_border), bg: None, bold: true, underlined: false }
        } else {
            Style { fg: Some(self.inactive_border), bg: None, bold: false, underlined: false }
        }
    }
}

fn is_source(e: &str) -> (b: bool)
    ensures
        b == is_source_extension(e@),
{
    text::str_eq(e, "rs") || text::str_eq(e, "go") || text::str_eq(e, "py") || text::str_eq(e, "js")
        || text::str_eq(e, "ts") || text::str_eq(e, "java") || text::str_eq(e, "c") || text::str_eq(e, "cpp")
        || text::str_eq(e, "h") || text::str_eq(e, "hpp") || text::str_eq(e, "cs") || text::str_eq(e, "swift")
        || text::str_eq(e, "kt") || text::str_eq(e, "scala") || text::str_eq(e, "rb") || text::str_eq(e, "php")
        || text::str_eq(e, "lua") || text::str_eq(e, "sh") || text::str_eq(e, "bash")
}

fn is_document(e: &str) -> (b: bool)
    ensures
        b == is_document_extension(e@),
{
    text::str_eq(e, "md") || text::str_eq(e, "txt") || text::str_eq(e, "doc") || text::str_eq(e, "docx")
        || text::str_eq(e, "pdf") || text::str_eq(e, "odt") || text::str_eq(e, "rtf")
}

fn is_image(e: &str) -> (b: bool)
    ensures
        b == is_image_extension(e@),
{
    text::str_eq(e, "jpg") || text::str_eq(e, "jpeg") || text::str_eq(e, "png") || text::str_eq(e, "gif")
        || text::str_eq(e, "svg") || text::str_eq(e, "bmp") || text::str_eq(e, "ico") || text::str_eq(e, "webp")
}

fn is_archive(e: &str) -> (b: bool)
    ensures
        b == is_archive_extension(e@),
{
    text::str_eq(e, "zip") || text::str_eq(e, "tar") || text::str_eq(e, "gz") || text::str_eq(e, "bz2")
        || text::str_eq(e, "xz") || text::str_eq(e, "rar") || text::str_eq(e, "7z") || text::str_eq(e, "deb")
        || text::str_eq(e, "rpm")
}

/// The current theme, and the rotation of the five palettes that the random
/// mode walks through, one step every ten minutes.
pub struct ThemeManager {
    current_theme: Theme,
    themes: Vec<Theme>,
    last_rotation: u64,
    rotation_interval: u64,
    current_index: usize,
}

impl ThemeManager {
    /// The theme shown.
    pub closed spec fn current(&self) -> Theme {
        self.current_theme
    }

    /// The position in the rotation.
    pub closed spec fn index(&self) -> nat {
        self.current_index as nat
    }

    /// When the theme last rotated (seconds).
    pub closed spec fn rotated_at(&self) -> u64 {
        self.last_rotation
    }

    /// The rotation holds the five palettes, the position lies in it, and
    /// the interval is ten minutes.
    pub closed spec fn wf(&self) -> bool {
        self.themes@ == rotation() && self.current_index < 5 && self.rotation_interval == 600
    }

    /// A manager showing the palette of a mode (random shows the first theme
    /// of the rotation), with the rotation at its start and its clock started
    /// at `now`.
    pub fn new(mode: ThemeMode, now: u64) -> (r: Self)
        ensures
            r.wf(),
            r.index() == 0,
            r.rotated_at() == now,
            r.current() == palette(mode),
    {
        let themes = vec![Theme::dark(), Theme::light(), Theme::gruvbox(), Theme::nord(), Theme::modern()];
        assert(themes@ =~= rotation());
        let current_theme = match mode {
            ThemeMode::Dark => Theme::dark(),
            ThemeMode::Light => Theme::light(),
            ThemeMode::Gruvbox => Theme::gruvbox(),
            ThemeMode::Nord => Theme::nord(),
            ThemeMode::Modern => Theme::modern(),
            ThemeMode::Random => themes[0],
        };
        ThemeManager { current_theme, themes, last_rotation: now, rotation_interval: 600, current_index: 0 }
    }

    /// The theme shown.
    pub fn get_current_theme(&self) -> (r: &Theme)
        ensures
            *r == self.current(),
    {
        &self.current_theme
    }

    /// Shows the palette of a mode; random shows the rotation's current
    /// theme and restarts the rotation clock at `now`.
    pub fn set_theme(&mut self, mode: ThemeMode, now: u64)
        requires
            old(self).wf(),
        ensures
            final(self).wf(),
            final(self).index() == old(self).index(),
            final(self).current() == (if mode == ThemeMode::Random {
                rotation()[old(self).index() as int]
            } else {
                palette(mode)
            }),
            final(self).rotated_at() == (if mode == ThemeMode::Random { now } else { old(self).rotated_at() }),
    {
        self.current_theme = match mode {
            ThemeMode::Dark => Theme::dark(),
            ThemeMode::Light => Theme::light(),
            ThemeMode::Gruvbox => Theme::gruvbox(),
            ThemeMode::Nord => Theme::nord(),
            ThemeMode::Modern => Theme::modern(),
            ThemeMode::Random => {
                self.last_rotation = now;
                self.themes[self.current_index]
            },
        };
    }

    /// Rotates to the next theme when the theme shown is in random mode and
    /// the interval has passed since the last rotation; a clock that went
    /// back counts as no time passed.
    pub fn update(&mut self, now: u64)
        requires
            old(self).wf(),
        ensures
            final(self).wf(),
            old(self).current().mode == ThemeMode::Random && now - old(self).rotated_at() >= 600
                ==> final(self).index() == next_index(old(self).index())
                && final(self).current() == rotation()[final(self).index() as int]
                && final(self).rotated_at() == now,
            !(old(self).current().mode == ThemeMode::Random && now - old(self).rotated_at() >= 600)
                ==> *final(self) == *old(self),
    {
        let elapsed = if now >= self.last_rotation { now - self.last_rotation } else { 0 };
        if self.current_theme.mode == ThemeMode::Random && elapsed >= self.rotation_interval {
            self.current_index = (self.current_index + 1) % self.themes.len();
            self.current_theme = self.themes[self.current_index];
            self.last_rotation = now;
        }
    }

    /// Shows the next theme of the rotation.
    pub fn next_theme(&mut self)
        requires
            old(self).wf(),
        ensures
            final(self).wf(),
            final(self).index() == next_index(old(self).index()),
            final(self).current() == rotation()[final(self).index() as int],
            final(self).rotated_at() == old(self).rotated_at(),
    {
        self.current_index = (self.current_index + 1) % self.themes.len();
        self.current_theme = self.themes[self.current_index];
    }

    /// Shows the previous theme of the rotation.
    pub fn previous_theme(&mut self)
        requires
            old(self).wf(),
        ensures
            final(self).wf(),
            final(self).index() == previous_index(old(self).index()),
            final(self).current() == rotation()[final(self).index() as int],
            final(self).rotated_at() == old(self).rotated_at(),
    {
        if self.current_index == 0 {
            self.current_index = self.themes.len() - 1;
        } else {
            self.current_index = self.current_index - 1;
        }
        self.current_theme = self.themes[self.current_index];
    }
}

/// Going to the next theme and back returns to the same place of the
/// rotation, and so does going back and then forward.
pub proof fn law_next_then_previous(i: nat)
    requires
        i < 5,
    ensures
        previous_index(next_index(i)) == i,
        next_index(previous_index(i)) == i,
{
}

/// The colour a (lowercased) colour name in the configuration names.
pub open spec fn color_named(l: Seq<char>) -> Option<Color> {
    if l == "red"@ {
        Some(Color::Red)
    } else if l == "green"@ {
        Some(Color::Green)
    } else if l == "blue"@ {
        Some(Color::Blue)
    } else if l == "yellow"@ {
        Some(Color::Yellow)
    } else if l == "cyan"@ {
        Some(Color::Cyan)
    } else if l == "magenta"@ {
        Some(Color::Magenta)
    } else if l == "white"@ {
        Some(Color::White)
    } else if l == "black"@ {
        Some(Color::Black)
    } else if l == "gray"@ || l == "grey"@ {
        Some(Color::Gray)
    } else if l == "dark_gray"@ || l == "dark_grey"@ {
        Some(Color::DarkGray)
    } else if l == "light_red"@ {
        Some(Color::LightRed)
    } else if l == "light_green"@ {
        Some(Color::LightGreen)
    } else if l == "light_blue"@ {
        Some(Color::LightBlue)
    } else if l == "light_yellow"@ {
        Some(Color::LightYellow)
    } else if l == "light_cyan"@ {
        Some(Color::LightCyan)
    } else if l == "light_magenta"@ {
        Some(Color::LightMagenta)
    } else {
        None
    }
}

/// The colour a colour name of the configuration names, ignoring case.
pub fn parse_color(name: &str) -> (r: Option<Color>)
    ensures
        r == color_named(text::lowercase(name@)),
{
    let l = text::to_lowercase(name);
    let w = l.as_str();
    if text::str_eq(w, "red") {
        Some(Color::Red)
    } else if text::str_eq(w, "green") {
        Some(Color::Green)
    } else if text::str_eq(w, "blue") {
        Some(Color::Blue)
    } else if text::str_eq(w, "yellow") {
        Some(Color::Yellow)
    } else if text::str_eq(w, "cyan") {
        Some(Color::Cyan)
    } else if text::str_eq(w, "magenta") {
        Some(Color::Magenta)
    } else if text::str_eq(w, "white") {
        Some(Color::White)
    } else if text::str_eq(w, "black") {
        Some(Color::Black)
    } else if text::str_eq(w, "gray") || text::str_eq(w, "grey") {
        Some(Color::Gray)
    } else if text::str_eq(w, "dark_gray") || text::str_eq(w, "dark_grey") {
        Some(Color::DarkGray)
    } else if text::str_eq(w, "light_red") {
        Some(Color::LightRed)
    } else if text::str_eq(w, "light_green") {
        Some(Color::LightGreen)
    } else if text::str_eq(w, "light_blue") {
        Some(Color::LightBlue)
    } else if text::str_eq(w, "light_yellow") {
        Some(Color::LightYellow)
    } else if text::str_eq(w, "light_cyan") {
        Some(Color::LightCyan)
    } else if text::str_eq(w, "light_magenta") {
        Some(Color::LightMagenta)
    } else {
        None
    }
}

impl ThemeManager {
    /// Shows selections on another background.
    pub fn override_selection_bg(&mut self, color: Color)
        ensures
            final(self).current() == (Theme { selected_bg: color, ..old(self).current() }),
            final(self).index() == old(self).index(),
            final(self).rotated_at() == old(self).rotated_at(),
            final(self).wf() == old(self).wf(),
    {
        self.current_theme.selected_bg = color;
    }

    /// Shows directories in another colour.
    pub fn override_directory_color(&mut self, color: Color)
        ensures
            final(self).current() == (Theme { directory: color, ..old(self).current() }),
            final(self).index() == old(self).index(),
            final(self).rotated_at() == old(self).rotated_at(),
            final(self).wf() == old(self).wf(),
    {
        self.current_theme.directory = color;
    }

    /// Shows executables in another colour.
    pub fn override_executable_color(&mut self, color: Color)
        ensures
            final(self).current() == (Theme { executable: color, ..old(self).current() }),
            final(self).index() == old(self).index(),
            final(self).rotated_at() == old(self).rotated_at(),
            final(self).wf() == old(self).wf(),
    {
        self.current_theme.executable = color;
    }

    /// Shows symbolic links in another colour.
    pub fn override_symlink_color(&mut self, color: Color)
        ensures
            final(self).current() == (Theme { symlink: color, ..old(self).current() }),
            final(self).index() == old(self).index(),
            final(self).rotated_at() == old(self).rotated_at(),
            final(self).wf() == old(self).wf(),
    {
        self.current_theme.symlink = color;
    }
}

/// The theme with each colour of the configuration that names a colour put
/// in place (selection background, directories, executables, symbolic
/// links); names that are no colour leave the theme's own.
pub open spec fn with_configured_colors(t: Theme, c: ColorConfig) -> Theme {
    let sel = match color_named(text::lowercase(c.selection_bg@)) {
        Some(x) => x,
        None => t.selected_bg,
    };
    let dir = match color_named(text::lowercase(c.directory_fg@)) {
        Some(x) => x,
        None => t.directory,
    };
    let exe = match color_named(text::lowercase(c.executable_fg@)) {
        Some(x) => x,
        None => t.executable,
    };
    let link = match color_named(text::lowercase(c.symlink_fg@)) {
        Some(x) => x,
        None => t.symlink,
    };
    Theme { selected_bg: sel, directory: dir, executable: exe, symlink: link, ..t }
}

/// Puts the colours of the configuration into the current theme.
pub fn apply_color_configuration(manager: &mut ThemeManager, colors: &ColorConfig)
    ensures
        final(manager).current() == with_configured_colors(old(manager).current(), *colors),
        final(manager).index() == old(manager).index(),
        final(manager).rotated_at() == old(manager).rotated_at(),
        final(manager).wf() == old(manager).wf(),
{
    if let Some(c) = parse_color(colors.selection_bg.as_str()) {
        manager.override_selection_bg(c);
    }
    if let Some(c) = parse_color(colors.directory_fg.as_str()) {
        manager.override_directory_color(c);
    }
    if let Some(c) = parse_color(colors.executable_fg.as_str()) {
        manager.override_executable_color(c);
    }
    if let Some(c) = parse_color(colors.symlink_fg.as_str()) {
        manager.override_symlink_color(c);
    }
}

} // verus!
