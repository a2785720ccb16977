//! Slash commands typed on the command line: what each one does to the
//! application state, and what it leaves to the interface (a dialog to
//! open, panels to reload, a connection to make).

use vstd::prelude::*;
use crate::cache::strings_view;
use crate::remote::{self, words, parse_u64};
use crate::state::AppState;
use crate::text;
use crate::theme::{self, ThemeMode};
use crate::commands::{parse_command, CommandType};
use crate::shell::{self, ShellStep};

verus! {

/// The slash commands.
#[derive(Debug, Clone, Copy, PartialEq, Eq, Structural)]
pub enum SpecialCommand {
    Help,
    Filter,
    Search,
    Config,
    Plugins,
    Commands,
    Connect,
    Reload,
    Theme,
    Quit,
    Unknown,
}

/// The dialogs a slash command opens.
#[derive(Debug, Clone, Copy, PartialEq, Eq, Structural)]
pub enum DialogKind {
    Filter,
    Search,
    Config,
    Plugin,
    CommandPalette,
    Connection,
}

/// What a slash command leaves to the interface.
#[derive(Debug)]
pub enum SpecialEffect {
    /// Nothing beyond the state change.
    Nothing,
    OpenDialog(DialogKind),
    /// The panels are to be reloaded.
    Refresh,
    ConnectSftp { host: String, port: u16, username: String },
    ConnectFtp { host: String, port: u16, username: String },
    /// The theme changed: the terminal background is to be repainted.
    ThemeChanged,
}

/// The command a (lowercased) word names, with its short forms.
pub open spec fn special_command_of(w: Seq<char>) -> SpecialCommand {
    if w == "help"@ || w == "h"@ || w == "?"@ {
        SpecialCommand::Help
    } else if w == "filter"@ || w == "f"@ {
        SpecialCommand::Filter
    } else if w == "search"@ || w == "s"@ {
        SpecialCommand::Search
    } else if w == "config"@ || w == "cfg"@ {
        SpecialCommand::Config
    } else if w == "plugins"@ || w == "p"@ {
        SpecialCommand::Plugins
    } else if w == "commands"@ || w == "cmd"@ {
        SpecialCommand::Commands
    } else if w == "connect"@ || w == "c"@ {
        SpecialCommand::Connect
    } else if w == "reload"@ || w == "r"@ {
        SpecialCommand::Reload
    } else if w == "theme"@ || w == "t"@ {
        SpecialCommand::Theme
    } else if w == "quit"@ || w == "q"@ || w == "exit"@ {
        SpecialCommand::Quit
    } else {
        SpecialCommand::Unknown
    }
}

/// The command a command line names: its first word, ignoring case.
pub open spec fn command_of_line(line: Seq<char>) -> SpecialCommand {
    let ws = words(line);
    if ws.len() == 0 {
        SpecialCommand::Unknown
    } else {
        special_command_of(text::lowercase(ws[0]))
    }
}

/// The theme a (lowercased) name selects.
pub open spec fn theme_named(w: Seq<char>) -> Option<ThemeMode> {
    if w == "dark"@ {
        Some(ThemeMode::Dark)
    } else if w == "light"@ {
        Some(ThemeMode::Light)
    } else if w == "gruvbox"@ {
        Some(ThemeMode::Gruvbox)
    } else if w == "nord"@ {
        Some(ThemeMode::Nord)
    } else if w == "modern"@ {
        Some(ThemeMode::Modern)
    } else {
        None
    }
}

/// The help text of the slash commands.
pub open spec fn help_text() -> Seq<char> {
    "Special Commands:\n/help, /h, /?     - Show this help\n/filter, /f       - Filter files in current panel\n/search, /s       - Search for files\n/config, /cfg     - Open configuration\n/plugins, /p      - Manage plugins\n/commands, /cmd   - Command palette\n/connect, /c      - Connect to remote (sftp/ftp)\n/reload, /r       - Reload panels\n/theme, /t        - Change theme\n/quit, /q         - Exit application\n\nPress any key to continue..."@
}

/// The usage line of `/connect`.
pub open spec fn connect_usage() -> Seq<char> {
    "Usage: /connect [sftp|ftp] [host port username]"@
}

/// Whether a (lowercased) protocol word names SFTP.
pub open spec fn is_sftp_word(p: Seq<char>) -> bool {
    p == "sftp"@ || p == "ssh"@
}

/// A port as `u16::from_str` reads it, or the default where it reads none.
pub open spec fn port_or(s: Seq<char>, default: u16) -> u16 {
    match parse_u64(s) {
        Some(v) => if v <= 65535 {
            v as u16
        } else {
            default
        },
        None => default,
    }
}

/// The status message a command line leaves, if it leaves one.
pub open spec fn special_status(line: Seq<char>) -> Option<Seq<char>> {
    let ws = words(line);
    match command_of_line(line) {
        SpecialCommand::Help => Some(help_text()),
        SpecialCommand::Reload => Some("Panels refreshed"@),
        SpecialCommand::Theme => if ws.len() > 1 {
            match theme_named(text::lowercase(ws[1])) {
                Some(_) => Some("Theme changed to: "@ + ws[1]),
                None => Some("Unknown theme: "@ + ws[1]),
            }
        } else {
            Some("Usage: /theme <name>"@)
        },
        SpecialCommand::Connect => if ws.len() > 1 {
            let p = text::lowercase(ws[1]);
            if is_sftp_word(p) || p == "ftp"@ {
                None
            } else {
                Some(connect_usage())
            }
        } else {
            None
        },
        SpecialCommand::Unknown => Some("Unknown command: /"@ + line),
        _ => None,
    }
}

/// The theme a command line switches to, if it switches.
pub open spec fn special_theme(line: Seq<char>) -> Option<ThemeMode> {
    let ws = words(line);
    if command_of_line(line) == SpecialCommand::Theme && ws.len() > 1 {
        theme_named(text::lowercase(ws[1]))
    } else {
        None
    }
}

/// What `/connect` with the given arguments leaves to the interface: the
/// connection dialog without arguments or with too few, a connection with a
/// protocol, host, port and user name (port 22 or 21 where it does not
/// read as a number), nothing for another protocol.
pub open spec fn connect_effect(r: SpecialEffect, args: Seq<Seq<char>>) -> bool {
    if args.len() == 0 {
        r == SpecialEffect::OpenDialog(DialogKind::Connection)
    } else {
        let p = text::lowercase(args[0]);
        if is_sftp_word(p) {
            if args.len() >= 4 {
                r matches SpecialEffect::ConnectSftp { host, port, username } && host@ == args[1] && port
                    == port_or(args[2], 22) && username@ == args[3]
            } else {
                r == SpecialEffect::OpenDialog(DialogKind::Connection)
            }
        } else if p == "ftp"@ {
            if args.len() >= 4 {
                r matches SpecialEffect::ConnectFtp { host, port, username } && host@ == args[1] && port
                    == port_or(args[2], 21) && username@ == args[3]
            } else {
                r == SpecialEffect::OpenDialog(DialogKind::Connection)
            }
        } else {
            r == SpecialEffect::Nothing
        }
    }
}

/// What a command line leaves to the interface.
pub open spec fn special_effect(r: SpecialEffect, line: Seq<char>) -> bool {
    let ws = words(line);
    match command_of_line(line) {
        SpecialCommand::Filter => r == SpecialEffect::OpenDialog(DialogKind::Filter),
        SpecialCommand::Search => r == SpecialEffect::OpenDialog(DialogKind::Search),
        SpecialCommand::Config => r == SpecialEffect::OpenDialog(DialogKind::Config),
        SpecialCommand::Plugins => r == SpecialEffect::OpenDialog(DialogKind::Plugin),
        SpecialCommand::Commands => r == SpecialEffect::OpenDialog(DialogKind::CommandPalette),
        SpecialCommand::Connect => connect_effect(r, ws.subrange(1, ws.len() as int)),
        SpecialCommand::Reload => r == SpecialEffect::Refresh,
        SpecialCommand::Theme => if special_theme(line) is Some {
            r == SpecialEffect::ThemeChanged
        } else {
            r == SpecialEffect::Nothing
        },
        _ => r == SpecialEffect::Nothing,
    }
}

fn eq(a: &str, b: &str) -> (r: bool)
    ensures
        r == (a@ == b@),
{
    text::str_eq(a, b)
}

/// The command a lowercased word names.
pub fn special_command_named(w: &str) -> (r: SpecialCommand)
    ensures
        r == special_command_of(w@),
{
    if eq(w, "help") || eq(w, "h") || eq(w, "?") {
        SpecialCommand::Help
    } else if eq(w, "filter") || eq(w, "f") {
        SpecialCommand::Filter
    } else if eq(w, "search") || eq(w, "s") {
        SpecialCommand::Search
    } else if eq(w, "config") || eq(w, "cfg") {
        SpecialCommand::Config
    } else if eq(w, "plugins") || eq(w, "p") {
        SpecialCommand::Plugins
    } else if eq(w, "commands") || eq(w, "cmd") {
        SpecialCommand::Commands
    } else if eq(w, "connect") || eq(w, "c") {
        SpecialCommand::Connect
    } else if eq(w, "reload") || eq(w, "r") {
        SpecialCommand::Reload
    } else if eq(w, "theme") || eq(w, "t") {
        SpecialCommand::Theme
    } else if eq(w, "quit") || eq(w, "q") || eq(w, "exit") {
        SpecialCommand::Quit
    } else {
        SpecialCommand::Unknown
    }
}

/// The theme a name selects, ignoring case.
pub fn theme_by_name(name: &str) -> (r: Option<ThemeMode>)
    ensures
        r == theme_named(text::lowercase(name@)),
{
    let l = text::to_lowercase(name);
    let w = l.as_str();
    if eq(w, "dark") {
        Some(ThemeMode::Dark)
    } else if eq(w, "light") {
        Some(ThemeMode::Light)
    } else if eq(w, "gruvbox") {
        Some(ThemeMode::Gruvbox)
    } else if eq(w, "nord") {
        Some(ThemeMode::Nord)
    } else if eq(w, "modern") {
        Some(ThemeMode::Modern)
    } else {
        None
    }
}

/// A port as `u16::from_str` reads it, or the default.
fn port_from(s: &str, default: u16) -> (r: u16)
    ensures
        r == port_or(s@, default),
{
    match remote::parse_number(s) {
        Some(v) => if v <= 65535 {
            v as u16
        } else {
            default
        },
        None => default,
    }
}

fn joined(prefix: &str, s: &str) -> (r: String)
    ensures
        r@ == prefix@ + s@,
{
    let mut r = String::from_str(prefix);
    r.append(s);
    r
}

/// What `/connect` with the given arguments (the words after the command)
/// leaves to the interface, and the usage line for an unknown protocol.
fn connect_request(ws: &Vec<String>) -> (r: (SpecialEffect, Option<String>))
    requires
        ws@.len() >= 1,
    ensures
        connect_effect(r.0, strings_view(ws@).subrange(1, ws@.len() as int)),
        ({
            let args = strings_view(ws@).subrange(1, ws@.len() as int);
            match r.1 {
                Some(m) => args.len() > 0 && !(is_sftp_word(text::lowercase(args[0])) || text::lowercase(args[0])
                    == "ftp"@) && m@ == connect_usage(),
                None => args.len() == 0 || is_sftp_word(text::lowercase(args[0])) || text::lowercase(args[0])
                    == "ftp"@,
            }
        }),
{
    let ghost args = strings_view(ws@).subrange(1, ws@.len() as int);
    if ws.len() == 1 {
        return (SpecialEffect::OpenDialog(DialogKind::Connection), None);
    }
    assert(args[0] == ws@[1]@);
    let p = text::to_lowercase(ws[1].as_str());
    let sftp = eq(p.as_str(), "sftp") || eq(p.as_str(), "ssh");
    let ftp = eq(p.as_str(), "ftp");
    if sftp || ftp {
        if ws.len() >= 5 {
            assert(args[1] == ws@[2]@ && args[2] == ws@[3]@ && args[3] == ws@[4]@);
            let host = ws[2].clone();
            let username = ws[4].clone();
            if sftp {
                let port = port_from(ws[3].as_str(), 22);
                (SpecialEffect::ConnectSftp { host, port, username }, None)
            } else {
                let port = port_from(ws[3].as_str(), 21);
                (SpecialEffect::ConnectFtp { host, port, username }, None)
            }
        } else {
            (SpecialEffect::OpenDialog(DialogKind::Connection), None)
        }
    } else {
        (SpecialEffect::Nothing, Some(String::from_str("Usage: /connect [sftp|ftp] [host port username]")))
    }
}

/// What a slash command line does: `s` is the state before, `t` after,
/// `r` what is left to the interface. Only the status line and the theme
/// change.
pub open spec fn special_done(s: AppState, t: AppState, line: Seq<char>, r: SpecialEffect) -> bool {
    &&& t.theme_manager.wf()
    &&& special_effect(r, line)
    &&& t == (AppState { status_message: t.status_message, theme_manager: t.theme_manager, ..s })
    &&& match special_status(line) {
        Some(m) => t.status_message matches Some(x) && x@ == m,
        None => t.status_message == s.status_message,
    }
    &&& match special_theme(line) {
        Some(mode) => t.theme_manager.current() == theme::palette(mode) && t.theme_manager.index()
            == s.theme_manager.index() && t.theme_manager.rotated_at() == s.theme_manager.rotated_at(),
        None => t.theme_manager == s.theme_manager,
    }
}

/// What a plugin command line does: the status line names the plugin when
/// the line is not blank (`r` tells which).
pub open spec fn plugin_done(s: AppState, t: AppState, line: Seq<char>, r: bool) -> bool {
    &&& r == (words(line).len() > 0)
    &&& (r ==> t == (AppState { status_message: t.status_message, ..s }) && (t.status_message matches Some(m)
        && m@ == "Plugin command: "@ + words(line)[0]))
    &&& (!r ==> t == s)
}

/// Runs a slash command (the command line without its slash): shows the
/// help, a usage line, a theme change or an unknown command in the status
/// line, switches the theme, and says what is left to the interface. A
/// command names its action by its first word, ignoring case.
pub fn handle_special_command(state: &mut AppState, command: &str, now: u64) -> (r: SpecialEffect)
    requires
        old(state).theme_manager.wf(),
    ensures
        special_done(*old(state), *final(state), command@, r),
{
    let ws = remote::split_words(command);
    let ghost v = strings_view(ws@);
    let kind = if ws.len() == 0 {
        SpecialCommand::Unknown
    } else {
        let l = text::to_lowercase(ws[0].as_str());
        assert(v[0] == ws@[0]@);
        special_command_named(l.as_str())
    };
    assert(kind == command_of_line(command@));
    match kind {
        SpecialCommand::Help => {
            state.set_status_message(String::from_str("Special Commands:\n/help, /h, /?     - Show this help\n/filter, /f       - Filter files in current panel\n/search, /s       - Search for files\n/config, /cfg     - Open configuration\n/plugins, /p      - Manage plugins\n/commands, /cmd   - Command palette\n/connect, /c      - Connect to remote (sftp/ftp)\n/reload, /r       - Reload panels\n/theme, /t        - Change theme\n/quit, /q         - Exit application\n\nPress any key to continue..."));
            SpecialEffect::Nothing
        },
        SpecialCommand::Filter => SpecialEffect::OpenDialog(DialogKind::Filter),
        SpecialCommand::Search => SpecialEffect::OpenDialog(DialogKind::Search),
        SpecialCommand::Config => SpecialEffect::OpenDialog(DialogKind::Config),
        SpecialCommand::Plugins => SpecialEffect::OpenDialog(DialogKind::Plugin),
        SpecialCommand::Commands => SpecialEffect::OpenDialog(DialogKind::CommandPalette),
        SpecialCommand::Connect => {
            let (effect, usage) = connect_request(&ws);
            if let Some(m) = usage {
                state.set_status_message(m);
            }
            effect
        },
        SpecialCommand::Reload => {
            state.set_status_message(String::from_str("Panels refreshed"));
            SpecialEffect::Refresh
        },
        SpecialCommand::Theme => {
            if ws.len() > 1 {
                assert(v[1] == ws@[1]@);
                let name = ws[1].as_str();
                match theme_by_name(name) {
                    Some(mode) => {
                        state.theme_manager.set_theme(mode, now);
                        state.set_status_message(joined("Theme changed to: ", name));
                        SpecialEffect::ThemeChanged
                    },
                    None => {
                        state.set_status_message(joined("Unknown theme: ", name));
                        SpecialEffect::Nothing
                    },
                }
            } else {
                state.set_status_message(String::from_str("Usage: /theme <name>"));
                SpecialEffect::Nothing
            }
        },
        SpecialCommand::Quit => SpecialEffect::Nothing,
        SpecialCommand::Unknown => {
            state.set_status_message(joined("Unknown command: /", command));
            SpecialEffect::Nothing
        },
    }
}

/// Runs a plugin command (the command line without its colon): the status
/// line names the plugin, the first word; true unless the command is blank.
pub fn handle_plugin_command(state: &mut AppState, command: &str) -> (r: bool)
    ensures
        plugin_done(*old(state), *final(state), command@, r),
{
    let ws = remote::split_words(command);
    if ws.len() == 0 {
        return false;
    }
    assert(strings_view(ws@)[0] == ws@[0]@);
    state.set_status_message(joined("Plugin command: ", ws[0].as_str()));
    true
}

/// What a command line turned into.
#[derive(Debug)]
pub enum CommandStep {
    Special(SpecialEffect),
    /// Whether a plugin command was taken.
    Plugin(bool),
    Shell(ShellStep),
}

/// Runs a command line: `/` starts a slash command, `:` a plugin command,
/// anything else a shell command.
pub fn process_command(state: &mut AppState, command: &str, now: u64) -> (r: CommandStep)
    requires
        old(state).theme_manager.wf(),
    ensures
        final(state).theme_manager.wf(),
        command@.len() > 0 && command@[0] == '/' ==> (r matches CommandStep::Special(e) && special_done(
            *old(state),
            *final(state),
            command@.drop_first(),
            e,
        )),
        command@.len() > 0 && command@[0] == ':' ==> (r matches CommandStep::Plugin(b) && plugin_done(
            *old(state),
            *final(state),
            command@.drop_first(),
            b,
        )),
        !(command@.len() > 0 && (command@[0] == '/' || command@[0] == ':')) ==> (r matches CommandStep::Shell(
            step,
        ) && shell::shell_started(*old(state), *final(state), command@, step)),
{
    match parse_command(command) {
        CommandType::Special(cmd) => CommandStep::Special(handle_special_command(state, cmd.as_str(), now)),
        CommandType::Plugin(cmd) => CommandStep::Plugin(handle_plugin_command(state, cmd.as_str())),
        CommandType::Shell(cmd) => CommandStep::Shell(shell::execute_shell_command(state, cmd)),
    }
}

} // verus!
