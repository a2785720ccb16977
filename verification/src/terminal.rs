//! The built-in terminal: which shell to start and how, terminal sizes and
//! events, and the bookkeeping of terminal sessions.

use vstd::prelude::*;
use crate::text;

verus! {

/// A kind of shell.
#[derive(Debug)]
pub enum ShellType {
    Bash,
    Zsh,
    Fish,
    PowerShell,
    Cmd,
    Custom(String),
}

/// How to start a shell: its kind, program, arguments, extra environment and
/// working directory.
#[derive(Debug)]
pub struct ShellConfig {
    pub shell_type: ShellType,
    pub command: String,
    pub args: Vec<String>,
    pub env: Vec<(String, String)>,
    pub working_dir: Option<String>,
}

/// The view of environment pairs.
pub open spec fn env_view(e: Seq<(String, String)>) -> Seq<(Seq<char>, Seq<char>)> {
    e.map_values(|p: (String, String)| (p.0@, p.1@))
}

/// The environment every Unix shell gets: a 256-colour terminal with true
/// colour.
pub open spec fn color_env() -> Seq<(Seq<char>, Seq<char>)> {
    seq![("TERM"@, "xterm-256color"@), ("COLORTERM"@, "truecolor"@)]
}

fn color_env_vec() -> (r: Vec<(String, String)>)
    ensures
        env_view(r@) == color_env(),
{
    let mut r: Vec<(String, String)> = Vec::new();
    r.push((String::from_str("TERM"), String::from_str("xterm-256color")));
    r.push((String::from_str("COLORTERM"), String::from_str("truecolor")));
    assert(env_view(r@) =~= color_env());
    r
}

fn one_arg(a: &str) -> (r: Vec<String>)
    ensures
        crate::cache::strings_view(r@) == seq![a@],
{
    let mut r: Vec<String> = Vec::new();
    r.push(String::from_str(a));
    assert(crate::cache::strings_view(r@) =~= seq![a@]);
    r
}

/// Calls `which::which`: whether an executable of that name is found on the
/// search path. What it finds depends on the machine, so nothing is stated
/// of the result.
#[verifier::external_body]
fn program_found(name: &str) -> (r: bool) {
    which::which(name).is_ok()
}

/// A program followed by its arguments, separated by spaces.
pub open spec fn command_line(command: Seq<char>, args: Seq<Seq<char>>) -> Seq<char>
    decreases args.len(),
{
    if args.len() == 0 {
        command
    } else {
        command_line(command, args.drop_last()) + seq![' '] + args.last()
    }
}

/// Whether `r` is Bash as a login shell.
pub open spec fn is_bash(r: ShellConfig) -> bool {
    &&& r.shell_type is Bash
    &&& r.command@ == "bash"@
    &&& r.args_view() == seq!["--login"@]
    &&& env_view(r.env@) == color_env()
    &&& r.working_dir is None
}

/// Whether `r` is Zsh as a login shell.
pub open spec fn is_zsh(r: ShellConfig) -> bool {
    &&& r.shell_type is Zsh
    &&& r.command@ == "zsh"@
    &&& r.args_view() == seq!["-l"@]
    &&& env_view(r.env@) == color_env()
    &&& r.working_dir is None
}

/// Whether `r` is Fish as a login shell.
pub open spec fn is_fish(r: ShellConfig) -> bool {
    &&& r.shell_type is Fish
    &&& r.command@ == "fish"@
    &&& r.args_view() == seq!["-l"@]
    &&& env_view(r.env@) == color_env()
    &&& r.working_dir is None
}

/// Whether `r` is Windows PowerShell without the banner.
pub open spec fn is_powershell(r: ShellConfig) -> bool {
    &&& r.shell_type is PowerShell
    &&& r.command@ == "powershell"@
    &&& r.args_view() == seq!["-NoLogo"@]
    &&& r.env@.len() == 0
    &&& r.working_dir is None
}

/// Whether `r` is PowerShell (Core) without the banner.
pub open spec fn is_powershell_core(r: ShellConfig) -> bool {
    &&& r.shell_type is PowerShell
    &&& r.command@ == "pwsh"@
    &&& r.args_view() == seq!["-NoLogo"@]
    &&& r.env@.len() == 0
    &&& r.working_dir is None
}

/// Whether `r` is the Windows command interpreter.
pub open spec fn is_cmd(r: ShellConfig) -> bool {
    &&& r.shell_type is Cmd
    &&& r.command@ == "cmd.exe"@
    &&& r.args@.len() == 0
    &&& r.env@.len() == 0
    &&& r.working_dir is None
}

/// Whether `r` runs another program, `command`, without arguments.
pub open spec fn is_custom(r: ShellConfig, command: Seq<char>) -> bool {
    &&& r.shell_type matches ShellType::Custom(c) && c@ == command
    &&& r.command@ == command
    &&& r.args@.len() == 0
    &&& env_view(r.env@) == color_env()
    &&& r.working_dir is None
}

impl ShellConfig {
    /// The arguments as values.
    pub open spec fn args_view(&self) -> Seq<Seq<char>> {
        crate::cache::strings_view(self.args@)
    }

    /// Bash as a login shell.
    pub fn bash() -> (r: Self)
        ensures
            is_bash(r),
    {
        ShellConfig {
            shell_type: ShellType::Bash,
            command: String::from_str("bash"),
            args: one_arg("--login"),
            env: color_env_vec(),
            working_dir: None,
        }
    }

    /// Zsh as a login shell.
    pub fn zsh() -> (r: Self)
        ensures
            is_zsh(r),
    {
        ShellConfig {
            shell_type: ShellType::Zsh,
            command: String::from_str("zsh"),
            args: one_arg("-l"),
            env: color_env_vec(),
            working_dir: None,
        }
    }

    /// Fish as a login shell.
    pub fn fish() -> (r: Self)
        ensures
            is_fish(r),
    {
        ShellConfig {
            shell_type: ShellType::Fish,
            command: String::from_str("fish"),
            args: one_arg("-l"),
            env: color_env_vec(),
            working_dir: None,
        }
    }

    /// Windows PowerShell without the banner.
    pub fn powershell() -> (r: Self)
        ensures
            is_powershell(r),
    {
        ShellConfig {
            shell_type: ShellType::PowerShell,
            command: String::from_str("powershell"),
            args: one_arg("-NoLogo"),
            env: Vec::new(),
            working_dir: None,
        }
    }

    /// PowerShell (Core) without the banner.
    pub fn powershell_core() -> (r: Self)
        ensures
            is_powershell_core(r),
    {
        ShellConfig {
            shell_type: ShellType::PowerShell,
            command: String::from_str("pwsh"),
            args: one_arg("-NoLogo"),
            env: Vec::new(),
            working_dir: None,
        }
    }

    /// The Windows command interpreter.
    pub fn cmd() -> (r: Self)
        ensures
            is_cmd(r),
    {
        ShellConfig {
            shell_type: ShellType::Cmd,
            command: String::from_str("cmd.exe"),
            args: Vec::new(),
            env: Vec::new(),
            working_dir: None,
        }
    }

    /// Another program, started without arguments.
    pub fn custom(command: String) -> (r: Self)
        ensures
            is_custom(r, command@),
    {
        ShellConfig {
            shell_type: ShellType::Custom(command.clone()),
            command,
            args: Vec::new(),
            env: color_env_vec(),
            working_dir: None,
        }
    }

    /// The shell named by the `SHELL` variable (Bash where it is unset):
    /// Zsh, Fish or Bash where the name mentions them, in that order, else
    /// the program itself.
    pub fn from_shell_variable(shell: Option<String>) -> (r: Self)
        ensures
            ({
                let s = match shell {
                    Some(v) => v@,
                    None => "/bin/bash"@,
                };
                if text::seq_contains(s, "zsh"@) {
                    is_zsh(r)
                } else if text::seq_contains(s, "fish"@) {
                    is_fish(r)
                } else if text::seq_contains(s, "bash"@) {
                    is_bash(r)
                } else {
                    is_custom(r, s)
                }
            }),
    {
        let shell = match shell {
            Some(v) => v,
            None => String::from_str("/bin/bash"),
        };
        let cs = text::chars_of(shell.as_str());
        let zsh = text::chars_of("zsh");
        let fish = text::chars_of("fish");
        let bash = text::chars_of("bash");
        if text::contains_chars(cs.as_slice(), zsh.as_slice()) {
            Self::zsh()
        } else if text::contains_chars(cs.as_slice(), fish.as_slice()) {
            Self::fish()
        } else if text::contains_chars(cs.as_slice(), bash.as_slice()) {
            Self::bash()
        } else {
            Self::custom(shell)
        }
    }

    /// The Windows shell: PowerShell Core where `pwsh` is installed, else
    /// Windows PowerShell where it is, else the command interpreter.
    pub fn for_windows(has_pwsh: bool, has_powershell: bool) -> (r: Self)
        ensures
            has_pwsh ==> is_powershell_core(r),
            !has_pwsh && has_powershell ==> is_powershell(r),
            !has_pwsh && !has_powershell ==> is_cmd(r),
    {
        if has_pwsh {
            Self::powershell_core()
        } else if has_powershell {
            Self::powershell()
        } else {
            Self::cmd()
        }
    }

    /// The shell of the system: on Windows PowerShell Core or Windows
    /// PowerShell where the program is found on the search path, else the
    /// command interpreter; elsewhere the shell the `SHELL` variable names
    /// (see `from_shell_variable`).
    pub fn detect_system_shell(is_windows: bool, shell_variable: Option<String>) -> (r: Self)
        ensures
            is_windows ==> is_powershell_core(r) || is_powershell(r) || is_cmd(r),
            !is_windows ==> ({
                let s = match shell_variable {
                    Some(v) => v@,
                    None => "/bin/bash"@,
                };
                if text::seq_contains(s, "zsh"@) {
                    is_zsh(r)
                } else if text::seq_contains(s, "fish"@) {
                    is_fish(r)
                } else if text::seq_contains(s, "bash"@) {
                    is_bash(r)
                } else {
                    is_custom(r, s)
                }
            }),
    {
        if is_windows {
            let has_pwsh = program_found("pwsh");
            let has_powershell = if has_pwsh { false } else { program_found("powershell") };
            Self::for_windows(has_pwsh, has_powershell)
        } else {
            Self::from_shell_variable(shell_variable)
        }
    }

    /// The configuration started in a directory.
    pub fn with_working_dir(self, dir: String) -> (r: Self)
        ensures
            r.shell_type == self.shell_type,
            r.command == self.command,
            r.args@ == self.args@,
            r.env@ == self.env@,
            r.working_dir == Some(dir),
    {
        let mut s = self;
        s.working_dir = Some(dir);
        s
    }

    /// The configuration with one more environment variable.
    pub fn with_env(self, key: String, value: String) -> (r: Self)
        ensures
            r.shell_type == self.shell_type,
            r.command == self.command,
            r.args@ == self.args@,
            r.env@ == self.env@.push((key, value)),
            r.working_dir == self.working_dir,
    {
        let mut s = self;
        s.env.push((key, value));
        s
    }

    /// The command line that starts the shell.
    pub fn build_command(&self) -> (r: String)
        ensures
            r@ == command_line(self.command@, self.args_view()),
    {
        let ghost args = self.args_view();
        let mut cmd = self.command.clone();
        let mut i: usize = 0;
        while i < self.args.len()
            invariant
                args == self.args_view(),
                i <= args.len(),
                cmd@ == command_line(self.command@, args.take(i as int)),
            decreases args.len() - i,
        {
            assert(args.take(i + 1).drop_last() =~= args.take(i as int));
            text::push_char(&mut cmd, ' ');
            cmd.append(self.args[i].as_str());
            i = i + 1;
        }
        assert(args.take(args.len() as int) =~= args);
        cmd
    }
}

impl Clone for ShellType {
    fn clone(&self) -> (r: Self)
        ensures
            r == *self,
    {
        match self {
            ShellType::Bash => ShellType::Bash,
            ShellType::Zsh => ShellType::Zsh,
            ShellType::Fish => ShellType::Fish,
            ShellType::PowerShell => ShellType::PowerShell,
            ShellType::Cmd => ShellType::Cmd,
            ShellType::Custom(c) => ShellType::Custom(c.clone()),
        }
    }
}

/// The size of a terminal in character cells.
#[derive(Debug, Clone, Copy, PartialEq, Eq, Structural)]
pub struct TerminalSize {
    pub rows: u16,
    pub cols: u16,
}

/// What a running terminal reports.
#[derive(Debug)]
pub enum TerminalEvent {
    Output(Vec<u8>),
    Resize(TerminalSize),
    Exit(Option<i32>),
    Error(String),
}

/// A terminal session: its identifier, title, directory and size.
#[derive(Debug)]
pub struct TerminalSession {
    pub id: String,
    pub title: String,
    pub working_dir: String,
    pub rows: u16,
    pub cols: u16,
}

impl Clone for TerminalSession {
    fn clone(&self) -> (r: Self)
        ensures
            r == *self,
    {
        TerminalSession {
            id: self.id.clone(),
            title: self.title.clone(),
            working_dir: self.working_dir.clone(),
            rows: self.rows,
            cols: self.cols,
        }
    }
}

/// The identifier of the `n`-th session.
pub open spec fn session_id(n: nat) -> Seq<char> {
    "term_"@ + text::decimal(n)
}

/// The terminal sessions, numbered from 1 in the order they were created,
/// and the shell each starts.
pub struct TerminalManager {
    sessions: Vec<TerminalSession>,
    next_id: u64,
    default_shell: ShellConfig,
}

impl TerminalManager {
    /// The sessions.
    pub closed spec fn sessions(&self) -> Seq<TerminalSession> {
        self.sessions@
    }

    /// The number the next session gets.
    pub closed spec fn next(&self) -> nat {
        self.next_id as nat
    }

    /// The shell sessions start.
    pub closed spec fn shell(&self) -> ShellConfig {
        self.default_shell
    }

    /// No sessions yet; the first gets number 1; sessions start the given
    /// shell (the system's, see `ShellConfig::detect_system_shell`).
    pub fn new(default_shell: ShellConfig) -> (r: Self)
        ensures
            r.sessions().len() == 0,
            r.next() == 1,
            r.shell() == default_shell,
    {
        TerminalManager { sessions: Vec::new(), next_id: 1, default_shell }
    }

    /// The manager with sessions starting another shell.
    pub fn with_default_shell(self, shell: ShellConfig) -> (r: Self)
        ensures
            r.sessions() == self.sessions(),
            r.next() == self.next(),
            r.shell() == shell,
    {
        TerminalManager { sessions: self.sessions, next_id: self.next_id, default_shell: shell }
    }

    /// The command line a new session's terminal runs.
    pub fn spawn_command(&self) -> (r: String)
        ensures
            r@ == command_line(self.shell().command@, self.shell().args_view()),
    {
        self.default_shell.build_command()
    }

    /// Opens a session: `term_<n>`, titled `Terminal term_<n>` unless a title
    /// is given, 24 rows by 80 columns unless a size is given.
    pub fn create_session(&mut self, title: Option<String>, working_dir: String, size: Option<TerminalSize>) -> (r:
        TerminalSession)
        requires
            old(self).next() < u64::MAX,
        ensures
            final(self).shell() == old(self).shell(),
            r.id@ == session_id(old(self).next()),
            r.title@ == (match title {
                Some(t) => t@,
                None => "Terminal "@ + session_id(old(self).next()),
            }),
            r.working_dir@ == working_dir@,
            r.rows == (match size {
                Some(s) => s.rows,
                None => 24,
            }),
            r.cols == (match size {
                Some(s) => s.cols,
                None => 80,
            }),
            final(self).next() == old(self).next() + 1,
            final(self).sessions() == old(self).sessions().push(r),
    {
        let mut id = String::from_str("term_");
        let n = text::decimal_string(self.next_id);
        id.append(n.as_str());
        self.next_id = self.next_id + 1;
        let title = match title {
            Some(t) => t,
            None => {
                let mut t = String::from_str("Terminal ");
                t.append(id.as_str());
                t
            },
        };
        let size = match size {
            Some(s) => s,
            None => TerminalSize { rows: 24, cols: 80 },
        };
        let session = TerminalSession { id, title, working_dir, rows: size.rows, cols: size.cols };
        self.sessions.push(session.clone());
        session
    }

    /// The position of a session.
    fn find(&self, session_id: &str) -> (r: Option<usize>)
        ensures
            r matches Some(i) ==> i < self.sessions().len() && self.sessions()[i as int].id@ == session_id@
                && forall|j: int| 0 <= j < i ==> self.sessions()[j].id@ != session_id@,
            r is None ==> forall|j: int| 0 <= j < self.sessions().len() ==> self.sessions()[j].id@ != session_id@,
    {
        let mut i: usize = 0;
        while i < self.sessions.len()
            invariant
                i <= self.sessions@.len(),
                forall|j: int| 0 <= j < i ==> self.sessions@[j].id@ != session_id@,
            decreases self.sessions@.len() - i,
        {
            if text::str_eq(self.sessions[i].id.as_str(), session_id) {
                return Some(i);
            }
            i = i + 1;
        }
        None
    }

    /// Records a new size for a session; false where there is no such
    /// session.
    pub fn resize_session(&mut self, session_id: &str, rows: u16, cols: u16) -> (r: bool)
        ensures
            final(self).shell() == old(self).shell(),
            r == exists|j: int| 0 <= j < old(self).sessions().len() && old(self).sessions()[j].id@ == session_id@,
            final(self).next() == old(self).next(),
            final(self).sessions().len() == old(self).sessions().len(),
            forall|j: int|
                0 <= j < old(self).sessions().len() ==> {
                    let a = old(self).sessions()[j];
                    let b = #[trigger] final(self).sessions()[j];
                    b.id == a.id && b.title == a.title && b.working_dir == a.working_dir && (if a.id@ == session_id@
                        && forall|k: int| 0 <= k < j ==> old(self).sessions()[k].id@ != session_id@ {
                        b.rows == rows && b.cols == cols
                    } else {
                        b.rows == a.rows && b.cols == a.cols
                    })
                },
    {
        match self.find(session_id) {
            Some(i) => {
                let mut s = self.sessions[i].clone();
                s.rows = rows;
                s.cols = cols;
                self.sessions.set(i, s);
                true
            },
            None => false,
        }
    }

    /// The sessions.
    pub fn list_sessions(&self) -> (r: Vec<TerminalSession>)
        ensures
            r@ == self.sessions(),
    {
        let mut r: Vec<TerminalSession> = Vec::new();
        let mut i: usize = 0;
        while i < self.sessions.len()
            invariant
                i <= self.sessions@.len(),
                r@ == self.sessions@.take(i as int),
            decreases self.sessions@.len() - i,
        {
            r.push(self.sessions[i].clone());
            assert(r@ =~= self.sessions@.take(i + 1));
            i = i + 1;
        }
        assert(self.sessions@.take(self.sessions@.len() as int) =~= self.sessions@);
        r
    }

    /// A session by identifier.
    pub fn get_session_info(&self, session_id: &str) -> (r: Option<TerminalSession>)
        ensures
            r matches Some(s) ==> exists|j: int|
                0 <= j < self.sessions().len() && self.sessions()[j] == s && s.id@ == session_id@ && forall|k: int|
                    0 <= k < j ==> self.sessions()[k].id@ != session_id@,
            r is None ==> forall|j: int| 0 <= j < self.sessions().len() ==> self.sessions()[j].id@ != session_id@,
    {
        match self.find(session_id) {
            Some(i) => Some(self.sessions[i].clone()),
            None => None,
        }
    }

    /// Closes a session; false where there is no such session.
    pub fn close_session(&mut self, session_id: &str) -> (r: bool)
        ensures
            final(self).shell() == old(self).shell(),
            r == exists|j: int| 0 <= j < old(self).sessions().len() && old(self).sessions()[j].id@ == session_id@,
            final(self).next() == old(self).next(),
            !r ==> final(self).sessions() == old(self).sessions(),
            r ==> exists|j: int|
                0 <= j < old(self).sessions().len() && old(self).sessions()[j].id@ == session_id@ && (forall|k: int|
                    0 <= k < j ==> old(self).sessions()[k].id@ != session_id@) && final(self).sessions() == old(
                    self,
                ).sessions().remove(j),
    {
        match self.find(session_id) {
            Some(i) => {
                self.sessions.remove(i);
                true
            },
            None => false,
        }
    }

    /// Closes every session; the identifiers of those closed, in order.
    pub fn close_all_sessions(&mut self) -> (r: Vec<String>)
        ensures
            final(self).shell() == old(self).shell(),
            crate::cache::strings_view(r@) == old(self).sessions().map_values(|t: TerminalSession| t.id@),
            final(self).sessions().len() == 0,
            final(self).next() == old(self).next(),
    {
        let mut ids: Vec<String> = Vec::new();
        let mut i: usize = 0;
        while i < self.sessions.len()
            invariant
                i <= self.sessions@.len(),
                self.sessions@ == old(self).sessions(),
                self.next_id == old(self).next(),
                crate::cache::strings_view(ids@) == old(self).sessions().take(i as int).map_values(
                    |t: TerminalSession| t.id@,
                ),
            decreases self.sessions@.len() - i,
        {
            let ghost before = crate::cache::strings_view(ids@);
            let id = self.sessions[i].id.clone();
            let ghost v = id@;
            assert(v == old(self).sessions()[i as int].id@);
            ids.push(id);
            assert(crate::cache::strings_view(ids@) =~= before.push(v));
            assert(old(self).sessions().take(i + 1) =~= old(self).sessions().take(i as int).push(old(self).sessions()[i as int]));
            i = i + 1;
            assert(crate::cache::strings_view(ids@) =~= old(self).sessions().take(i as int).map_values(
                |t: TerminalSession| t.id@,
            ));
        }
        assert(old(self).sessions().take(i as int) =~= old(self).sessions());
        self.sessions = Vec::new();
        ids
    }
}

/// A change a file monitor reports.
#[derive(Debug)]
pub enum FileMonitorEvent {
    Created(String),
    Modified(String),
    Deleted(String),
    Renamed { from: String, to: String },
}

/// The kind of a change a file watcher reports.
#[derive(Debug, Clone, Copy, PartialEq, Eq, Structural)]
pub enum WatchEventKind {
    Create,
    Modify,
    Remove,
    /// A change of another kind (renames are reported so).
    Other,
    /// Access and anything not above.
    Any,
}

/// The monitor event for a watcher report: the first path for a creation,
/// change or removal, both paths for a rename (a report of another kind with
/// exactly two paths), else nothing.
pub fn convert_event(kind: WatchEventKind, paths: Vec<String>) -> (r: Option<FileMonitorEvent>)
    ensures
        match kind {
            WatchEventKind::Create => if paths@.len() > 0 {
                r matches Some(FileMonitorEvent::Created(p)) && p == paths@[0]
            } else {
                r is None
            },
            WatchEventKind::Modify => if paths@.len() > 0 {
                r matches Some(FileMonitorEvent::Modified(p)) && p == paths@[0]
            } else {
                r is None
            },
            WatchEventKind::Remove => if paths@.len() > 0 {
                r matches Some(FileMonitorEvent::Deleted(p)) && p == paths@[0]
            } else {
                r is None
            },
            WatchEventKind::Other => if paths@.len() == 2 {
                r matches Some(FileMonitorEvent::Renamed { from, to }) && from == paths@[0] && to == paths@[1]
            } else {
                r is None
            },
            WatchEventKind::Any => r is None,
        },
{
    let mut paths = paths;
    match kind {
        WatchEventKind::Create | WatchEventKind::Modify | WatchEventKind::Remove => {
            if paths.len() == 0 {
                return None;
            }
            let first = paths.remove(0);
            match kind {
                WatchEventKind::Create => Some(FileMonitorEvent::Created(first)),
                WatchEventKind::Modify => Some(FileMonitorEvent::Modified(first)),
                _ => Some(FileMonitorEvent::Deleted(first)),
            }
        },
        WatchEventKind::Other => {
            if paths.len() != 2 {
                return None;
            }
            let to = paths.pop().unwrap();
            let from = paths.pop().unwrap();
            Some(FileMonitorEvent::Renamed { from, to })
        },
        WatchEventKind::Any => None,
    }
}

} // verus!
