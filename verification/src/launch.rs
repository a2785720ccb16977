//! Opening the program in a terminal window of the system: the command
//! that starts it in terminal mode, and the terminals to try on each
//! system, in order of preference.

use vstd::prelude::*;
use crate::cache::strings_view;

verus! {

/// The systems a terminal window can be opened on.
#[derive(Debug, Clone, Copy, PartialEq, Eq, Structural)]
pub enum TargetOs {
    MacOs,
    Windows,
    Linux,
    Other,
}

/// The command that starts the program at `exe` in terminal mode, in the
/// directory `path` when one is given (quoted).
pub open spec fn relaunch_text(exe: Seq<char>, path: Option<Seq<char>>) -> Seq<char> {
    match path {
        Some(p) => exe + " --terminal"@ + " '"@ + p + "'"@,
        None => exe + " --terminal"@,
    }
}

/// The command that starts the program in terminal mode.
pub fn relaunch_command(exe: &str, path: Option<&str>) -> (r: String)
    ensures
        r@ == relaunch_text(exe@, match path {
            Some(p) => Some(p@),
            None => None,
        }),
{
    let mut s = String::from_str(exe);
    s.append(" --terminal");
    match path {
        Some(p) => {
            s.append(" '");
            s.append(p);
            s.append("'");
        },
        None => {},
    }
    s
}

/// A list of terminal candidates as plain values.
pub open spec fn candidates_view(v: Seq<(String, Vec<String>)>) -> Seq<(Seq<char>, Seq<Seq<char>>)> {
    v.map_values(|c: (String, Vec<String>)| (c.0@, strings_view(c.1@)))
}

fn push_owned(v: &mut Vec<String>, s: String)
    ensures
        strings_view(final(v)@) == strings_view(old(v)@).push(s@),
{
    let ghost t = s@;
    v.push(s);
    assert(strings_view(v@) =~= strings_view(old(v)@).push(t));
}

fn push_arg(v: &mut Vec<String>, s: &str)
    ensures
        strings_view(final(v)@) == strings_view(old(v)@).push(s@),
{
    v.push(String::from_str(s));
    assert(strings_view(v@) =~= strings_view(old(v)@).push(s@));
}

/// The AppleScript that opens iTerm on a command.
pub open spec fn iterm_script(cmd: Seq<char>) -> Seq<char> {
    "tell application \"iTerm\"\n                create window with default profile\n                tell current session of current window\n                    write text \""@ + cmd + "\"\n                end tell\n                activate\n            end tell"@
}

/// The AppleScript that opens Terminal on a command.
pub open spec fn terminal_app_script(cmd: Seq<char>) -> Seq<char> {
    "tell application \"Terminal\"\n                do script \""@ + cmd + "\"\n                activate\n                set bounds of front window to {100, 100, 1380, 900}\n            end tell"@
}

/// The command PowerShell is given.
pub open spec fn powershell_command(cmd: Seq<char>) -> Seq<char> {
    "cmd /K '"@ + cmd + "'"@
}

/// The Linux terminals to try, in order, each with its arguments.
pub open spec fn linux_terminals(cmd: Seq<char>) -> Seq<(Seq<char>, Seq<Seq<char>>)> {
    seq![
        ("gnome-terminal"@, seq!["--geometry=120x40"@, "--title=Cortex File Manager"@, "--"@, "sh"@, "-c"@, cmd]),
        ("konsole"@, seq!["--geometry"@, "120x40"@, "--title"@, "Cortex File Manager"@, "-e"@, "sh"@, "-c"@, cmd]),
        ("tilix"@, seq!["--geometry=120x40"@, "--title=Cortex File Manager"@, "-e"@, "sh"@, "-c"@, cmd]),
        ("alacritty"@, seq!["--title"@, "Cortex File Manager"@, "-e"@, "sh"@, "-c"@, cmd]),
        ("kitty"@, seq!["--title"@, "Cortex File Manager"@, "sh"@, "-c"@, cmd]),
        ("wezterm"@, seq!["start"@, "--"@, "sh"@, "-c"@, cmd]),
        ("hyper"@, seq!["sh"@, "-c"@, cmd]),
        ("xfce4-terminal"@, seq!["--geometry=120x40"@, "--title=Cortex File Manager"@, "-e"@, "sh"@, "-c"@, cmd]),
        ("mate-terminal"@, seq!["--geometry=120x40"@, "--title=Cortex File Manager"@, "-e"@, "sh"@, "-c"@, cmd]),
        ("lxterminal"@, seq!["--geometry=120x40"@, "--title=Cortex File Manager"@, "-e"@, "sh"@, "-c"@, cmd]),
        ("rxvt"@, seq!["-geometry"@, "120x40"@, "-title"@, "Cortex File Manager"@, "-e"@, "sh"@, "-c"@, cmd]),
        ("urxvt"@, seq!["-geometry"@, "120x40"@, "-title"@, "Cortex File Manager"@, "-e"@, "sh"@, "-c"@, cmd]),
        ("xterm"@, seq!["-geometry"@, "120x40"@, "-title"@, "Cortex File Manager"@, "-e"@, "sh"@, "-c"@, cmd]),
    ]
}

/// The Windows terminals to try, in order, each with its arguments.
pub open spec fn windows_terminals(cmd: Seq<char>) -> Seq<(Seq<char>, Seq<Seq<char>>)> {
    seq![
        ("wt"@, seq!["-w"@, "0"@, "new-tab"@, "--title"@, "Cortex File Manager"@, "cmd"@, "/K"@, cmd]),
        ("wt.exe"@, seq!["new-tab"@, "--title"@, "Cortex File Manager"@, "cmd"@, "/K"@, cmd]),
        ("powershell"@, seq!["-NoExit"@, "-Command"@, powershell_command(cmd)]),
        ("cmd"@, seq!["/C"@, "start"@, "cmd"@, "/K"@, cmd]),
    ]
}

/// The macOS terminals to try, in order, each with its arguments.
pub open spec fn mac_terminals(cmd: Seq<char>) -> Seq<(Seq<char>, Seq<Seq<char>>)> {
    seq![
        ("osascript"@, seq!["-e"@, iterm_script(cmd)]),
        ("osascript"@, seq!["-e"@, terminal_app_script(cmd)]),
    ]
}

fn iterm_text(cmd: &str) -> (r: String)
    ensures
        r@ == iterm_script(cmd@),
{
    let mut s = String::from_str("tell application \"iTerm\"\n                create window with default profile\n                tell current session of current window\n                    write text \"");
    s.append(cmd);
    s.append("\"\n                end tell\n                activate\n            end tell");
    s
}

fn terminal_app_text(cmd: &str) -> (r: String)
    ensures
        r@ == terminal_app_script(cmd@),
{
    let mut s = String::from_str("tell application \"Terminal\"\n                do script \"");
    s.append(cmd);
    s.append("\"\n                activate\n                set bounds of front window to {100, 100, 1380, 900}\n            end tell");
    s
}

fn powershell_arg(cmd: &str) -> (r: String)
    ensures
        r@ == powershell_command(cmd@),
{
    let mut s = String::from_str("cmd /K '");
    s.append(cmd);
    s.append("'");
    s
}

fn linux_list(cmd: &str) -> (r: Vec<(String, Vec<String>)>)
    ensures
        candidates_view(r@) == linux_terminals(cmd@),
{
    let mut r: Vec<(String, Vec<String>)> = Vec::new();
    {
        let mut a: Vec<String> = Vec::new();
        push_arg(&mut a, "--geometry=120x40");
        push_arg(&mut a, "--title=Cortex File Manager");
        push_arg(&mut a, "--");
        push_arg(&mut a, "sh");
        push_arg(&mut a, "-c");
        push_arg(&mut a, cmd);
        assert(strings_view(a@) =~= linux_terminals(cmd@)[0].1);
        r.push((String::from_str("gnome-terminal"), a));
    }
    {
        let mut a: Vec<String> = Vec::new();
        push_arg(&mut a, "--geometry");
        push_arg(&mut a, "120x40");
        push_arg(&mut a, "--title");
        push_arg(&mut a, "Cortex File Manager");
        push_arg(&mut a, "-e");
        push_arg(&mut a, "sh");
        push_arg(&mut a, "-c");
        push_arg(&mut a, cmd);
        assert(strings_view(a@) =~= linux_terminals(cmd@)[1].1);
        r.push((String::from_str("konsole"), a));
    }
    {
        let mut a: Vec<String> = Vec::new();
        push_arg(&mut a, "--geometry=120x40");
        push_arg(&mut a, "--title=Cortex File Manager");
        push_arg(&mut a, "-e");
        push_arg(&mut a, "sh");
        push_arg(&mut a, "-c");
        push_arg(&mut a, cmd);
        assert(strings_view(a@) =~= linux_terminals(cmd@)[2].1);
        r.push((String::from_str("tilix"), a));
    }
    {
        let mut a: Vec<String> = Vec::new();
        push_arg(&mut a, "--title");
        push_arg(&mut a, "Cortex File Manager");
        push_arg(&mut a, "-e");
        push_arg(&mut a, "sh");
        push_arg(&mut a, "-c");
        push_arg(&mut a, cmd);
        assert(strings_view(a@) =~= linux_terminals(cmd@)[3].1);
        r.push((String::from_str("alacritty"), a));
    }
    {
        let mut a: Vec<String> = Vec::new();
        push_arg(&mut a, "--title");
        push_arg(&mut a, "Cortex File Manager");
        push_arg(&mut a, "sh");
        push_arg(&mut a, "-c");
        push_arg(&mut a, cmd);
        assert(strings_view(a@) =~= linux_terminals(cmd@)[4].1);
        r.push((String::from_str("kitty"), a));
    }
    {
        let mut a: Vec<String> = Vec::new();
        push_arg(&mut a, "start");
        push_arg(&mut a, "--");
        push_arg(&mut a, "sh");
        push_arg(&mut a, "-c");
        push_arg(&mut a, cmd);
        assert(strings_view(a@) =~= linux_terminals(cmd@)[5].1);
        r.push((String::from_str("wezterm"), a));
    }
    {
        let mut a: Vec<String> = Vec::new();
        push_arg(&mut a, "sh");
        push_arg(&mut a, "-c");
        push_arg(&mut a, cmd);
        assert(strings_view(a@) =~= linux_terminals(cmd@)[6].1);
        r.push((String::from_str("hyper"), a));
    }
    {
        let mut a: Vec<String> = Vec::new();
        push_arg(&mut a, "--geometry=120x40");
        push_arg(&mut a, "--title=Cortex File Manager");
        push_arg(&mut a, "-e");
        push_arg(&mut a, "sh");
        push_arg(&mut a, "-c");
        push_arg(&mut a, cmd);
        assert(strings_view(a@) =~= linux_terminals(cmd@)[7].1);
        r.push((String::from_str("xfce4-terminal"), a));
    }
    {
        let mut a: Vec<String> = Vec::new();
        push_arg(&mut a, "--geometry=120x40");
        push_arg(&mut a, "--title=Cortex File Manager");
        push_arg(&mut a, "-e");
        push_arg(&mut a, "sh");
        push_arg(&mut a, "-c");
        push_arg(&mut a, cmd);
        assert(strings_view(a@) =~= linux_terminals(cmd@)[8].1);
        r.push((String::from_str("mate-terminal"), a));
    }
    {
        let mut a: Vec<String> = Vec::new();
        push_arg(&mut a, "--geometry=120x40");
        push_arg(&mut a, "--title=Cortex File Manager");
        push_arg(&mut a, "-e");
        push_arg(&mut a, "sh");
        push_arg(&mut a, "-c");
        push_arg(&mut a, cmd);
        assert(strings_view(a@) =~= linux_terminals(cmd@)[9].1);
        r.push((String::from_str("lxterminal"), a));
    }
    {
        let mut a: Vec<String> = Vec::new();
        push_arg(&mut a, "-geometry");
        push_arg(&mut a, "120x40");
        push_arg(&mut a, "-title");
        push_arg(&mut a, "Cortex File Manager");
        push_arg(&mut a, "-e");
        push_arg(&mut a, "sh");
        push_arg(&mut a, "-c");
        push_arg(&mut a, cmd);
        assert(strings_view(a@) =~= linux_terminals(cmd@)[10].1);
        r.push((String::from_str("rxvt"), a));
    }
    {
        let mut a: Vec<String> = Vec::new();
        push_arg(&mut a, "-geometry");
        push_arg(&mut a, "120x40");
        push_arg(&mut a, "-title");
        push_arg(&mut a, "Cortex File Manager");
        push_arg(&mut a, "-e");
        push_arg(&mut a, "sh");
        push_arg(&mut a, "-c");
        push_arg(&mut a, cmd);
        assert(strings_view(a@) =~= linux_terminals(cmd@)[11].1);
        r.push((String::from_str("urxvt"), a));
    }
    {
        let mut a: Vec<String> = Vec::new();
        push_arg(&mut a, "-geometry");
        push_arg(&mut a, "120x40");
        push_arg(&mut a, "-title");
        push_arg(&mut a, "Cortex File Manager");
        push_arg(&mut a, "-e");
        push_arg(&mut a, "sh");
        push_arg(&mut a, "-c");
        push_arg(&mut a, cmd);
        assert(strings_view(a@) =~= linux_terminals(cmd@)[12].1);
        r.push((String::from_str("xterm"), a));
    }
    assert(candidates_view(r@) =~= linux_terminals(cmd@));
    r
}

fn windows_list(cmd: &str) -> (r: Vec<(String, Vec<String>)>)
    ensures
        candidates_view(r@) == windows_terminals(cmd@),
{
    let mut r: Vec<(String, Vec<String>)> = Vec::new();
    {
        let mut a: Vec<String> = Vec::new();
        push_arg(&mut a, "-w");
        push_arg(&mut a, "0");
        push_arg(&mut a, "new-tab");
        push_arg(&mut a, "--title");
        push_arg(&mut a, "Cortex File Manager");
        push_arg(&mut a, "cmd");
        push_arg(&mut a, "/K");
        push_arg(&mut a, cmd);
        assert(strings_view(a@) =~= windows_terminals(cmd@)[0].1);
        r.push((String::from_str("wt"), a));
    }
    {
        let mut a: Vec<String> = Vec::new();
        push_arg(&mut a, "new-tab");
        push_arg(&mut a, "--title");
        push_arg(&mut a, "Cortex File Manager");
        push_arg(&mut a, "cmd");
        push_arg(&mut a, "/K");
        push_arg(&mut a, cmd);
        assert(strings_view(a@) =~= windows_terminals(cmd@)[1].1);
        r.push((String::from_str("wt.exe"), a));
    }
    {
        let mut a: Vec<String> = Vec::new();
        push_arg(&mut a, "-NoExit");
        push_arg(&mut a, "-Command");
        push_owned(&mut a, powershell_arg(cmd));
        assert(strings_view(a@) =~= windows_terminals(cmd@)[2].1);
        r.push((String::from_str("powershell"), a));
    }
    {
        let mut a: Vec<String> = Vec::new();
        push_arg(&mut a, "/C");
        push_arg(&mut a, "start");
        push_arg(&mut a, "cmd");
        push_arg(&mut a, "/K");
        push_arg(&mut a, cmd);
        assert(strings_view(a@) =~= windows_terminals(cmd@)[3].1);
        r.push((String::from_str("cmd"), a));
    }
    assert(candidates_view(r@) =~= windows_terminals(cmd@));
    r
}

fn mac_list(cmd: &str) -> (r: Vec<(String, Vec<String>)>)
    ensures
        candidates_view(r@) == mac_terminals(cmd@),
{
    let mut r: Vec<(String, Vec<String>)> = Vec::new();
    {
        let mut a: Vec<String> = Vec::new();
        push_arg(&mut a, "-e");
        push_owned(&mut a, iterm_text(cmd));
        assert(strings_view(a@) =~= mac_terminals(cmd@)[0].1);
        r.push((String::from_str("osascript"), a));
    }
    {
        let mut a: Vec<String> = Vec::new();
        push_arg(&mut a, "-e");
        push_owned(&mut a, terminal_app_text(cmd));
        assert(strings_view(a@) =~= mac_terminals(cmd@)[1].1);
        r.push((String::from_str("osascript"), a));
    }
    assert(candidates_view(r@) =~= mac_terminals(cmd@));
    r
}

/// The terminals to try on a system, in order, each with its arguments; on
/// macOS iTerm is asked first and Terminal after it.
pub open spec fn terminal_candidates(os: TargetOs, cmd: Seq<char>) -> Seq<(Seq<char>, Seq<Seq<char>>)> {
    match os {
        TargetOs::MacOs => mac_terminals(cmd),
        TargetOs::Windows => windows_terminals(cmd),
        TargetOs::Linux => linux_terminals(cmd),
        TargetOs::Other => Seq::empty(),
    }
}

/// The terminals to try, in order, to run `cmd` in a new window.
pub fn system_terminal_candidates(os: TargetOs, cmd: &str) -> (r: Vec<(String, Vec<String>)>)
    ensures
        candidates_view(r@) == terminal_candidates(os, cmd@),
{
    match os {
        TargetOs::MacOs => mac_list(cmd),
        TargetOs::Windows => windows_list(cmd),
        TargetOs::Linux => linux_list(cmd),
        TargetOs::Other => {
            let r: Vec<(String, Vec<String>)> = Vec::new();
            assert(candidates_view(r@) =~= Seq::<(Seq<char>, Seq<Seq<char>>)>::empty());
            r
        },
    }
}

/// The error when no terminal could be opened (macOS falls back to
/// Terminal without one).
pub open spec fn no_terminal_text(os: TargetOs) -> Option<Seq<char>> {
    match os {
        TargetOs::Windows => Some("Could not find any suitable terminal application on Windows"@),
        TargetOs::Linux => Some(
            "Could not find any suitable terminal application on Linux. Please install one of: gnome-terminal, konsole, tilix, alacritty, kitty, xterm"@,
        ),
        _ => None,
    }
}

/// The error when no terminal could be opened.
pub fn no_terminal_message(os: TargetOs) -> (r: Option<String>)
    ensures
        match no_terminal_text(os) {
            Some(m) => r matches Some(s) && s@ == m,
            None => r is None,
        },
{
    match os {
        TargetOs::Windows => Some(String::from_str("Could not find any suitable terminal application on Windows")),
        TargetOs::Linux => Some(
            String::from_str(
                "Could not find any suitable terminal application on Linux. Please install one of: gnome-terminal, konsole, tilix, alacritty, kitty, xterm",
            ),
        ),
        _ => None,
    }
}

/// Trying terminals in order until one opens.
pub struct TerminalAttempts {
    count: usize,
    tried: usize,
    opened: bool,
}

impl TerminalAttempts {
    /// How many terminals there are to try.
    pub closed spec fn candidates(&self) -> nat {
        self.count as nat
    }

    /// How many were tried.
    pub closed spec fn tried_count(&self) -> nat {
        self.tried as nat
    }

    /// Whether one opened.
    pub closed spec fn is_open(&self) -> bool {
        self.opened
    }

    /// No more tried than there are.
    pub closed spec fn wf(&self) -> bool {
        self.tried <= self.count
    }

    /// The terminal to try next: the first not yet tried, until one opened.
    pub open spec fn next_index(&self) -> Option<nat> {
        if !self.is_open() && self.tried_count() < self.candidates() {
            Some(self.tried_count())
        } else {
            None
        }
    }

    /// Nothing tried among `count` terminals.
    pub fn new(count: usize) -> (r: Self)
        ensures
            r.wf(),
            r.candidates() == count,
            r.tried_count() == 0,
            !r.is_open(),
    {
        TerminalAttempts { count, tried: 0, opened: false }
    }

    /// The position of the terminal to try next, if any.
    pub fn next_candidate(&self) -> (r: Option<usize>)
        requires
            self.wf(),
        ensures
            match self.next_index() {
                Some(i) => r == Some(i as usize),
                None => r is None,
            },
    {
        if !self.opened && self.tried < self.count {
            Some(self.tried)
        } else {
            None
        }
    }

    /// Records whether the terminal tried opened.
    pub fn record(&mut self, opened: bool)
        requires
            old(self).wf(),
            old(self).next_index() is Some,
        ensures
            final(self).wf(),
            final(self).candidates() == old(self).candidates(),
            final(self).tried_count() == old(self).tried_count() + 1,
            final(self).is_open() == opened,
    {
        self.tried = self.tried + 1;
        self.opened = opened;
    }

    /// Whether a terminal opened.
    pub fn opened(&self) -> (r: bool)
        ensures
            r == self.is_open(),
    {
        self.opened
    }
}

} // verus!
