//! Shell commands typed on the command line: `cd` changes the active
//! panel's directory, anything else runs in a shell whose output lines are
//! collected in the command output.

use vstd::prelude::*;
use crate::git::{self, trimmed};
use crate::paths::{self, path_join};
use crate::state::{AppState, PanelState, output_after, with_active};
use crate::text;

verus! {

/// The directory a `cd <dir>` command goes to (relative to `current` unless
/// it starts with `/`), or nothing for another command.
pub open spec fn cd_destination(command: Seq<char>, current: Seq<char>) -> Option<Seq<char>> {
    let t = trimmed(command);
    if t.len() >= 3 && t.take(3) == seq!['c', 'd', ' '] {
        let p = trimmed(t.skip(3));
        Some(if p.len() > 0 && p[0] == '/' { p } else { path_join(current, p) })
    } else {
        None
    }
}

fn chars_from(cs: &Vec<char>, start: usize) -> (r: String)
    requires
        start <= cs@.len(),
    ensures
        r@ == cs@.skip(start as int),
{
    let mut rest: Vec<char> = Vec::new();
    let mut i = start;
    while i < cs.len()
        invariant
            start <= i <= cs@.len(),
            rest@ == cs@.subrange(start as int, i as int),
        decreases cs@.len() - i,
    {
        rest.push(cs[i]);
        i = i + 1;
        assert(rest@ =~= cs@.subrange(start as int, i as int));
    }
    assert(rest@ =~= cs@.skip(start as int));
    text::string_from_chars(rest.as_slice())
}

/// The directory a `cd <dir>` command goes to, or nothing for another
/// command.
pub fn cd_path(command: &str, current: &str) -> (r: Option<String>)
    ensures
        match cd_destination(command@, current@) {
            Some(d) => r matches Some(x) && x@ == d,
            None => r is None,
        },
{
    let t = git::trim(command);
    let cs = text::chars_of(t.as_str());
    if cs.len() >= 3 && cs[0] == 'c' && cs[1] == 'd' && cs[2] == ' ' {
        assert(cs@.take(3) =~= seq!['c', 'd', ' ']);
        let rest = chars_from(&cs, 3);
        let p = git::trim(rest.as_str());
        let pc = text::chars_of(p.as_str());
        if pc.len() > 0 && pc[0] == '/' {
            Some(p)
        } else {
            Some(paths::join(current, p.as_str()))
        }
    } else {
        proof {
            if t@.len() >= 3 && t@.take(3) == seq!['c', 'd', ' '] {
                assert(t@.take(3)[0] == 'c' && t@.take(3)[1] == 'd' && t@.take(3)[2] == ' ');
            }
        }
        None
    }
}

/// What starting a shell command leaves to the interface.
#[derive(Debug)]
pub enum ShellStep {
    /// A `cd`: whether the directory exists is to be looked up, then
    /// `finish_cd` called.
    CheckDirectory(String),
    /// The command is to run in a shell in `working_dir`, its output lines
    /// (see `stderr_line` and `exit_line`) added to the command output.
    Spawn { command: String, working_dir: String },
}

fn joined(prefix: &str, s: &str) -> (r: String)
    ensures
        r@ == prefix@ + s@,
{
    let mut r = String::from_str(prefix);
    r.append(s);
    r
}

/// What starting a shell command does: `s` is the state before, `t` after,
/// `r` what is left to the interface.
pub open spec fn shell_started(s: AppState, t: AppState, command: Seq<char>, r: ShellStep) -> bool {
    match cd_destination(command, s.active().current_dir@) {
        Some(d) => t == s && (r matches ShellStep::CheckDirectory(x) && x@ == d),
        None => {
            &&& r matches ShellStep::Spawn { command: c, working_dir: w } && c@ == command && w
                == s.active().current_dir
            &&& t == (AppState {
                command_output: t.command_output,
                command_output_visible: true,
                command_running: false,
                ..s
            })
            &&& t.command_output@.len() == 2
            &&& t.command_output@[0]@ == "[WORKING DIR] "@ + s.active().current_dir@
            &&& t.command_output@[1]@ == "[STARTED] "@ + command
        },
    }
}

/// Starts a shell command: a `cd` asks for its directory to be looked up;
/// anything else clears the command output, shows it with the working
/// directory and the command, and asks for the command to be run.
pub fn execute_shell_command(state: &mut AppState, command: String) -> (r: ShellStep)
    ensures
        shell_started(*old(state), *final(state), command@, r),
{
    let current = state.active_panel().current_dir.clone();
    match cd_path(command.as_str(), current.as_str()) {
        Some(d) => ShellStep::CheckDirectory(d),
        None => {
            state.clear_command_output();
            state.set_command_running(true);
            state.add_command_output(joined("[WORKING DIR] ", current.as_str()));
            state.add_command_output(joined("[STARTED] ", command.as_str()));
            state.set_command_running(false);
            ShellStep::Spawn { command, working_dir: current }
        },
    }
}

/// Finishes a `cd` once it is known whether the directory exists: the
/// active panel shows it from the top (and is to be listed again), or the
/// status line says it was not found. True when the panel changed.
pub fn finish_cd(state: &mut AppState, dir: String, is_dir: bool) -> (r: bool)
    ensures
        r == is_dir,
        is_dir ==> {
            let t = *final(state);
            &&& t == (AppState { status_message: t.status_message, ..with_active(*old(state), t.active()) })
            &&& t.active() == (PanelState {
                current_dir: t.active().current_dir,
                selected_index: 0,
                view_offset: 0,
                ..old(state).active()
            })
            &&& t.active().current_dir == dir
            &&& t.status_message matches Some(m) && m@ == "Changed to: "@ + dir@
        },
        !is_dir ==> *final(state) == (AppState { status_message: final(state).status_message, ..*old(state) })
            && (final(state).status_message matches Some(m) && m@ == "Directory not found: "@ + dir@),
{
    if is_dir {
        let message = joined("Changed to: ", dir.as_str());
        match state.active_panel {
            crate::state::ActivePanel::Left => {
                state.left_panel.current_dir = dir;
                state.left_panel.selected_index = 0;
                state.left_panel.view_offset = 0;
            },
            crate::state::ActivePanel::Right => {
                state.right_panel.current_dir = dir;
                state.right_panel.selected_index = 0;
                state.right_panel.view_offset = 0;
            },
        }
        state.set_status_message(message);
        true
    } else {
        state.set_status_message(joined("Directory not found: ", dir.as_str()));
        false
    }
}

/// A line the command wrote to its error stream, as the output shows it.
pub fn stderr_line(line: &str) -> (r: String)
    ensures
        r@ == "[ERROR] "@ + line@,
{
    joined("[ERROR] ", line)
}

/// The decimal notation of an integer, with a minus sign when negative.
pub open spec fn signed_decimal(v: int) -> Seq<char> {
    if v < 0 {
        seq!['-'] + text::decimal((-v) as nat)
    } else {
        text::decimal(v as nat)
    }
}

/// The last output line of a finished command: success, or the exit code
/// (`None` when a signal ended it), as `{:?}` shows an `Option<i32>`.
pub open spec fn exit_text(success: bool, code: Option<i32>) -> Seq<char> {
    if success {
        "[COMPLETED] Command finished successfully"@
    } else {
        "[COMPLETED] Command exited with code: "@ + match code {
            Some(c) => "Some("@ + signed_decimal(c as int) + ")"@,
            None => "None"@,
        }
    }
}

/// The last output line of a finished command.
pub fn exit_line(success: bool, code: Option<i32>) -> (r: String)
    ensures
        r@ == exit_text(success, code),
{
    if success {
        return String::from_str("[COMPLETED] Command finished successfully");
    }
    let inner = match code {
        Some(c) => {
            let mut n = String::new();
            if c < 0 {
                text::push_char(&mut n, '-');
                let m: i64 = -(c as i64);
                n.append(text::decimal_string(m as u64).as_str());
            } else {
                n.append(text::decimal_string(c as u64).as_str());
            }
            assert(n@ =~= signed_decimal(c as int));
            let mut w = String::from_str("Some(");
            w.append(n.as_str());
            w.append(")");
            w
        },
        None => String::from_str("None"),
    };
    let r = joined("[COMPLETED] Command exited with code: ", inner.as_str());
    r
}

/// The output line when the shell could not be started or waited for.
pub fn failure_line(waiting: bool, error: &str) -> (r: String)
    ensures
        r@ == (if waiting { "[ERROR] Failed to wait for command: "@ } else { "[ERROR] Failed to execute command: "@ })
            + error@,
{
    if waiting {
        joined("[ERROR] Failed to wait for command: ", error)
    } else {
        joined("[ERROR] Failed to execute command: ", error)
    }
}

/// Shows a line of a background command's output in the status line,
/// trimmed.
pub fn handle_command_output(state: &mut AppState, output: &str)
    ensures
        *final(state) == (AppState { status_message: final(state).status_message, ..*old(state) }),
        final(state).status_message matches Some(m) && m@ == "Command: "@ + trimmed(output@),
{
    let t = git::trim(output);
    state.set_status_message(joined("Command: ", t.as_str()));
}

/// Shows what a command run from the command line printed: its output,
/// trimmed, or else its error output; nothing when both are empty.
pub fn execute_system_command_status(state: &mut AppState, stdout: &str, stderr: &str)
    ensures
        trimmed(stdout@).len() > 0 ==> *final(state) == (AppState {
            status_message: final(state).status_message,
            ..*old(state)
        }) && (final(state).status_message matches Some(m) && m@ == "Command output: "@ + trimmed(stdout@)),
        trimmed(stdout@).len() == 0 && stderr@.len() > 0 ==> *final(state) == (AppState {
            status_message: final(state).status_message,
            ..*old(state)
        }) && (final(state).status_message matches Some(m) && m@ == "Command error: "@ + trimmed(stderr@)),
        trimmed(stdout@).len() == 0 && stderr@.len() == 0 ==> *final(state) == *old(state),
{
    let out = git::trim(stdout);
    if out.as_str().unicode_len() > 0 {
        state.set_status_message(joined("Command output: ", out.as_str()));
    } else if stderr.unicode_len() > 0 {
        let err = git::trim(stderr);
        state.set_status_message(joined("Command error: ", err.as_str()));
    }
}

/// Reports a reload of the configuration file: its error, or success.
pub fn process_config_reload(state: &mut AppState, error: Option<&str>)
    ensures
        *final(state) == (AppState { status_message: final(state).status_message, ..*old(state) }),
        final(state).status_message matches Some(m) && m@ == match error {
            Some(e) => "Failed to reload config: "@ + e@,
            None => "Configuration reloaded"@,
        },
{
    match error {
        Some(e) => state.set_status_message(joined("Failed to reload config: ", e)),
        None => state.set_status_message(String::from_str("Configuration reloaded")),
    }
}

} // verus!
