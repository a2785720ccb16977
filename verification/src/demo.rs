//! The demonstration screen the windowed mode shows when the file manager
//! cannot start in it: it counts the keys pressed and lists the last ten.

use vstd::prelude::*;
use crate::cache::strings_view;
use crate::text;

verus! {

/// A key event forwarded from the window.
#[derive(Debug, Clone, Copy, PartialEq, Eq, Structural)]
pub enum IntegratedTuiMessage {
    KeyChar(char),
    F10Key,
    EscapeKey,
    EnterKey,
    ArrowUp,
    ArrowDown,
    ArrowLeft,
    ArrowRight,
    Quit,
}

/// What the window is told to do.
#[derive(Debug)]
pub enum RenderMessage {
    ScreenUpdate(Vec<String>),
    Quit,
}

/// The three faces of the screen: after a character, an upward arrow, or
/// any other key.
#[derive(Debug, Clone, Copy, PartialEq, Eq, Structural)]
pub enum DemoKind {
    Key,
    Arrow,
    Special,
}

/// `n` spaces.
pub open spec fn spaces(n: nat) -> Seq<char> {
    Seq::new(n, |_i: int| ' ')
}

/// `s` right-aligned in `w` characters, as `{:>w}` pads it.
pub open spec fn pad_left(s: Seq<char>, w: nat) -> Seq<char> {
    if s.len() < w {
        spaces((w - s.len()) as nat) + s
    } else {
        s
    }
}

/// `s` left-aligned in `w` characters, as `{:w}` pads it.
pub open spec fn pad_right(s: Seq<char>, w: nat) -> Seq<char> {
    if s.len() < w {
        s + spaces((w - s.len()) as nat)
    } else {
        s
    }
}

fn spaces_text(n: usize) -> (r: String)
    ensures
        r@ == spaces(n as nat),
{
    let mut r = String::new();
    let mut i: usize = 0;
    while i < n
        invariant
            i <= n,
            r@ == spaces(i as nat),
        decreases n - i,
    {
        text::push_char(&mut r, ' ');
        i = i + 1;
        assert(r@ =~= spaces(i as nat));
    }
    r
}

fn pad_left_text(s: &str, w: usize) -> (r: String)
    ensures
        r@ == pad_left(s@, w as nat),
{
    let n = s.unicode_len();
    if n < w {
        let mut r = spaces_text(w - n);
        r.append(s);
        r
    } else {
        String::from_str(s)
    }
}

fn pad_right_text(s: &str, w: usize) -> (r: String)
    ensures
        r@ == pad_right(s@, w as nat),
{
    let n = s.unicode_len();
    let mut r = String::from_str(s);
    if n < w {
        let pad = spaces_text(w - n);
        r.append(pad.as_str());
    }
    r
}

fn push_line(v: &mut Vec<String>, s: &str)
    ensures
        strings_view(final(v)@) == strings_view(old(v)@).push(s@),
{
    v.push(String::from_str(s));
    assert(strings_view(v@) =~= strings_view(old(v)@).push(s@));
}

fn push_string(v: &mut Vec<String>, s: String)
    ensures
        strings_view(final(v)@) == strings_view(old(v)@).push(s@),
{
    let ghost t = s@;
    v.push(s);
    assert(strings_view(v@) =~= strings_view(old(v)@).push(t));
}

/// The screen shown before any key: what the demonstration answers to.
pub open spec fn intro_screen() -> Seq<Seq<char>> {
    seq![
        "┌─────────────────────────────────┐"@,
        "│       CORTEX FILE MANAGER       │"@,
        "│      INTERACTIVE DEMO MODE      │"@,
        "├─────────────────────────────────┤"@,
        "│                                 │"@,
        "│  KEYBOARD INPUT IS WORKING!     │"@,
        "│                                 │"@,
        "│  Try typing any key...          │"@,
        "│                                 │"@,
        "│  - Letters: A, B, C            │"@,
        "│  - Numbers: 1, 2, 3            │"@,
        "│  - Arrows: Up, Down, Left       │"@,
        "│  - Special: ESC, TAB, F10       │"@,
        "│                                 │"@,
        "│  Each key will update this      │"@,
        "│  display in real-time!          │"@,
        "│                                 │"@,
        "│  Press F10 or close to exit     │"@,
        "│                                 │"@,
        "└─────────────────────────────────┘"@,
    ]
}

/// The screen shown before any key.
pub fn demo_intro_screen() -> (r: Vec<String>)
    ensures
        strings_view(r@) == intro_screen(),
{
    let mut r: Vec<String> = Vec::new();
    push_line(&mut r, "┌─────────────────────────────────┐");
    push_line(&mut r, "│       CORTEX FILE MANAGER       │");
    push_line(&mut r, "│      INTERACTIVE DEMO MODE      │");
    push_line(&mut r, "├─────────────────────────────────┤");
    push_line(&mut r, "│                                 │");
    push_line(&mut r, "│  KEYBOARD INPUT IS WORKING!     │");
    push_line(&mut r, "│                                 │");
    push_line(&mut r, "│  Try typing any key...          │");
    push_line(&mut r, "│                                 │");
    push_line(&mut r, "│  - Letters: A, B, C            │");
    push_line(&mut r, "│  - Numbers: 1, 2, 3            │");
    push_line(&mut r, "│  - Arrows: Up, Down, Left       │");
    push_line(&mut r, "│  - Special: ESC, TAB, F10       │");
    push_line(&mut r, "│                                 │");
    push_line(&mut r, "│  Each key will update this      │");
    push_line(&mut r, "│  display in real-time!          │");
    push_line(&mut r, "│                                 │");
    push_line(&mut r, "│  Press F10 or close to exit     │");
    push_line(&mut r, "│                                 │");
    push_line(&mut r, "└─────────────────────────────────┘");
    assert(strings_view(r@) =~= intro_screen());
    r
}

/// The first ten lines of the screen after a key of the given kind, with
/// the number of keys so far.
pub open spec fn demo_header(kind: DemoKind, count: nat) -> Seq<Seq<char>> {
    match kind {

        DemoKind::Key => seq![
            "┌─────────────────────────────────┐"@,
            "│       CORTEX FILE MANAGER       │"@,
            "│        KEYBOARD WORKING!        │"@,
            "├─────────────────────────────────┤"@,
            "│                                 │"@,
            "│  ✅ KEY INPUT DETECTED!         │"@,
            "│                                 │"@,
            "│  Keys pressed: "@ + pad_left(text::decimal(count), 3) + "             │"@,
            "│                                 │"@,
            "│  Recent keys:                   │"@,
        ],

        DemoKind::Arrow => seq![
            "┌─────────────────────────────────┐"@,
            "│       CORTEX FILE MANAGER       │"@,
            "│       ARROW KEYS WORK!          │"@,
            "├─────────────────────────────────┤"@,
            "│                                 │"@,
            "│  ✅ NAVIGATION DETECTED!        │"@,
            "│                                 │"@,
            "│  Total events: "@ + pad_left(text::decimal(count), 3) + "             │"@,
            "│                                 │"@,
            "│  Recent inputs:                 │"@,
        ],

        DemoKind::Special => seq![
            "┌─────────────────────────────────┐"@,
            "│       CORTEX FILE MANAGER       │"@,
            "│      SPECIAL KEYS WORK!         │"@,
            "├─────────────────────────────────┤"@,
            "│                                 │"@,
            "│  ✅ ESC, TAB, F10 WORKING!      │"@,
            "│                                 │"@,
            "│  Total inputs: "@ + pad_left(text::decimal(count), 3) + "             │"@,
            "│                                 │"@,
            "│  Input log:                     │"@,
        ],

    }
}

/// The last two lines of the screen after a key of the given kind.
pub open spec fn demo_footer(kind: DemoKind) -> Seq<Seq<char>> {
    match kind {

        DemoKind::Key => seq!["│  Press F10 or close to exit     │"@, "└─────────────────────────────────┘"@],

        DemoKind::Arrow => seq!["│  All arrows work perfectly!     │"@, "└─────────────────────────────────┘"@],

        DemoKind::Special => seq!["│  All keys work perfectly!       │"@, "└─────────────────────────────────┘"@],

    }
}

fn header_lines(kind: DemoKind, count: usize) -> (r: Vec<String>)
    ensures
        strings_view(r@) == demo_header(kind, count as nat),
{
    let mut r: Vec<String> = Vec::new();
    let n = pad_left_text(text::decimal_string(count as u64).as_str(), 3);
    match kind {

        DemoKind::Key => {
            push_line(&mut r, "┌─────────────────────────────────┐");
            push_line(&mut r, "│       CORTEX FILE MANAGER       │");
            push_line(&mut r, "│        KEYBOARD WORKING!        │");
            push_line(&mut r, "├─────────────────────────────────┤");
            push_line(&mut r, "│                                 │");
            push_line(&mut r, "│  ✅ KEY INPUT DETECTED!         │");
            push_line(&mut r, "│                                 │");
            let mut c = String::from_str("│  Keys pressed: ");
            c.append(n.as_str());
            c.append("             │");
            push_string(&mut r, c);
            push_line(&mut r, "│                                 │");
            push_line(&mut r, "│  Recent keys:                   │");
        },

        DemoKind::Arrow => {
            push_line(&mut r, "┌─────────────────────────────────┐");
            push_line(&mut r, "│       CORTEX FILE MANAGER       │");
            push_line(&mut r, "│       ARROW KEYS WORK!          │");
            push_line(&mut r, "├─────────────────────────────────┤");
            push_line(&mut r, "│                                 │");
            push_line(&mut r, "│  ✅ NAVIGATION DETECTED!        │");
            push_line(&mut r, "│                                 │");
            let mut c = String::from_str("│  Total events: ");
            c.append(n.as_str());
            c.append("             │");
            push_string(&mut r, c);
            push_line(&mut r, "│                                 │");
            push_line(&mut r, "│  Recent inputs:                 │");
        },

        DemoKind::Special => {
            push_line(&mut r, "┌─────────────────────────────────┐");
            push_line(&mut r, "│       CORTEX FILE MANAGER       │");
            push_line(&mut r, "│      SPECIAL KEYS WORK!         │");
            push_line(&mut r, "├─────────────────────────────────┤");
            push_line(&mut r, "│                                 │");
            push_line(&mut r, "│  ✅ ESC, TAB, F10 WORKING!      │");
            push_line(&mut r, "│                                 │");
            let mut c = String::from_str("│  Total inputs: ");
            c.append(n.as_str());
            c.append("             │");
            push_string(&mut r, c);
            push_line(&mut r, "│                                 │");
            push_line(&mut r, "│  Input log:                     │");
        },

    }
    assert(strings_view(r@) =~= demo_header(kind, count as nat));
    r
}

fn footer_lines(kind: DemoKind) -> (r: Vec<String>)
    ensures
        strings_view(r@) == demo_footer(kind),
{
    let mut r: Vec<String> = Vec::new();
    match kind {

        DemoKind::Key => {
            push_line(&mut r, "│  Press F10 or close to exit     │");
            push_line(&mut r, "└─────────────────────────────────┘");
        },

        DemoKind::Arrow => {
            push_line(&mut r, "│  All arrows work perfectly!     │");
            push_line(&mut r, "└─────────────────────────────────┘");
        },

        DemoKind::Special => {
            push_line(&mut r, "│  All keys work perfectly!       │");
            push_line(&mut r, "└─────────────────────────────────┘");
        },

    }
    assert(strings_view(r@) =~= demo_footer(kind));
    r
}

/// The line showing entry `e` of the log at position `i` (from 0).
pub open spec fn log_line(i: nat, e: Seq<char>) -> Seq<char> {
    "│  "@ + pad_left(text::decimal(i + 1), 2) + ". "@ + pad_right(e, 25) + " │"@
}

/// The lines showing the log.
pub open spec fn log_lines(log: Seq<Seq<char>>) -> Seq<Seq<char>> {
    Seq::new(log.len(), |i: int| log_line(i as nat, log[i]))
}

/// The screen after a key: the header, the log, blank lines up to the
/// eighteenth, and the footer.
pub open spec fn demo_screen(kind: DemoKind, count: nat, log: Seq<Seq<char>>) -> Seq<Seq<char>> {
    let lines = demo_header(kind, count) + log_lines(log);
    let fill: nat = if lines.len() < 18 { (18 - lines.len()) as nat } else { 0 };
    lines + Seq::new(fill, |_i: int| "│                                 │"@) + demo_footer(kind)
}

/// The face a key shows.
pub open spec fn demo_kind(m: IntegratedTuiMessage) -> DemoKind {
    match m {
        IntegratedTuiMessage::KeyChar(_) => DemoKind::Key,
        IntegratedTuiMessage::ArrowUp => DemoKind::Arrow,
        _ => DemoKind::Special,
    }
}

/// The log entry of a key, the `count`-th pressed.
pub open spec fn log_entry(m: IntegratedTuiMessage, count: nat) -> Seq<char> {
    match m {
        IntegratedTuiMessage::KeyChar(c) => "Key '"@ + seq![c] + "' (press #"@ + text::decimal(count) + ") "@,
        IntegratedTuiMessage::ArrowUp => "Arrow UP"@,
        _ => "Special key"@,
    }
}

/// The log after adding an entry: the last ten entries.
pub open spec fn logged(log: Seq<Seq<char>>, e: Seq<char>) -> Seq<Seq<char>> {
    if log.len() + 1 > 10 {
        log.push(e).drop_first()
    } else {
        log.push(e)
    }
}

/// Whether a key ends the demonstration.
pub open spec fn ends_demo(m: IntegratedTuiMessage) -> bool {
    m == IntegratedTuiMessage::F10Key || m == IntegratedTuiMessage::Quit
}

/// The keys pressed so far and the last ten of them.
pub struct DemoState {
    key_count: usize,
    key_log: Vec<String>,
}

impl DemoState {
    /// The number of keys pressed.
    pub closed spec fn count(&self) -> nat {
        self.key_count as nat
    }

    /// The log entries, oldest first.
    pub closed spec fn log(&self) -> Seq<Seq<char>> {
        strings_view(self.key_log@)
    }

    /// At most ten entries are kept.
    pub open spec fn wf(&self) -> bool {
        self.log().len() <= 10
    }

    /// No key pressed yet.
    pub fn new() -> (r: Self)
        ensures
            r.wf(),
            r.count() == 0,
            r.log().len() == 0,
    {
        let r = DemoState { key_count: 0, key_log: Vec::new() };
        assert(r.log() =~= Seq::<Seq<char>>::empty());
        r
    }

    /// Takes a key: F10 or closing the window ends the demonstration;
    /// any other key is counted, logged, and shown.
    pub fn handle_key(&mut self, m: IntegratedTuiMessage) -> (r: RenderMessage)
        requires
            old(self).wf(),
            !ends_demo(m) ==> old(self).count() < usize::MAX,
        ensures
            final(self).wf(),
            ends_demo(m) ==> r is Quit && final(self).count() == old(self).count() && final(self).log()
                == old(self).log(),
            !ends_demo(m) ==> {
                &&& final(self).count() == old(self).count() + 1
                &&& final(self).log() == logged(old(self).log(), log_entry(m, final(self).count()))
                &&& r matches RenderMessage::ScreenUpdate(lines) && strings_view(lines@) == demo_screen(
                    demo_kind(m),
                    final(self).count(),
                    final(self).log(),
                )
            },
    {
        let kind = match m {
            IntegratedTuiMessage::F10Key | IntegratedTuiMessage::Quit => {
                return RenderMessage::Quit;
            },
            IntegratedTuiMessage::KeyChar(_) => DemoKind::Key,
            IntegratedTuiMessage::ArrowUp => DemoKind::Arrow,
            _ => DemoKind::Special,
        };
        self.key_count = self.key_count + 1;
        let entry = match m {
            IntegratedTuiMessage::KeyChar(c) => {
                let mut e = String::from_str("Key '");
                text::push_char(&mut e, c);
                e.append("' (press #");
                e.append(text::decimal_string(self.key_count as u64).as_str());
                e.append(") ");
                e
            },
            IntegratedTuiMessage::ArrowUp => String::from_str("Arrow UP"),
            _ => String::from_str("Special key"),
        };
        let ghost before = self.log();
        let ghost e = entry@;
        assert(e =~= log_entry(m, self.key_count as nat));
        self.key_log.push(entry);
        if self.key_log.len() > 10 {
            self.key_log.remove(0);
        }
        assert(self.log() =~= logged(before, e));
        let lines = self.screen(kind);
        RenderMessage::ScreenUpdate(lines)
    }

    fn screen(&self, kind: DemoKind) -> (r: Vec<String>)
        requires
            self.wf(),
        ensures
            strings_view(r@) == demo_screen(kind, self.count(), self.log()),
    {
        let mut r = header_lines(kind, self.key_count);
        let ghost head = strings_view(r@);
        let mut i: usize = 0;
        while i < self.key_log.len()
            invariant
                self.wf(),
                i <= self.key_log@.len(),
                head == demo_header(kind, self.count()),
                strings_view(r@) == head + log_lines(self.log()).subrange(0, i as int),
            decreases self.key_log@.len() - i,
        {
            let mut line = String::from_str("│  ");
            line.append(pad_left_text(text::decimal_string((i + 1) as u64).as_str(), 2).as_str());
            line.append(". ");
            line.append(pad_right_text(self.key_log[i].as_str(), 25).as_str());
            line.append(" │");
            proof {
                assert(self.log()[i as int] == self.key_log@[i as int]@);
            }
            push_string(&mut r, line);
            i = i + 1;
            assert(log_lines(self.log()).subrange(0, i as int) =~= log_lines(self.log()).subrange(0, i - 1).push(
                log_lines(self.log())[i - 1],
            ));
        }
        assert(log_lines(self.log()).subrange(0, i as int) =~= log_lines(self.log()));
        let ghost lines = strings_view(r@);
        while r.len() < 18
            invariant
                strings_view(r@).len() >= lines.len(),
                strings_view(r@) == lines + Seq::new(
                    (strings_view(r@).len() - lines.len()) as nat,
                    |_i: int| "│                                 │"@,
                ),
                lines.len() <= 20,
                lines.len() < 18 ==> strings_view(r@).len() <= 18,
                lines.len() >= 18 ==> strings_view(r@).len() == lines.len(),
                strings_view(r@).len() == r@.len(),
            decreases 18 - r@.len(),
        {
            push_line(&mut r, "│                                 │");
            assert(strings_view(r@) =~= lines + Seq::new(
                (strings_view(r@).len() - lines.len()) as nat,
                |_i: int| "│                                 │"@,
            ));
        }
        proof {
            assert(strings_view(r@).len() == r@.len());
            assert(r@.len() >= 18);
            if lines.len() < 18 {
                assert(strings_view(r@).len() == 18);
            } else {
                assert(strings_view(r@).len() == lines.len());
            }
            let n: nat = if lines.len() < 18 { (18 - lines.len()) as nat } else { 0nat };
            assert(strings_view(r@).len() - lines.len() == n);
        }
        let footer = footer_lines(kind);
        let ghost filled = strings_view(r@);
        let mut k: usize = 0;
        while k < footer.len()
            invariant
                k <= footer@.len(),
                strings_view(r@) == filled + strings_view(footer@).subrange(0, k as int),
            decreases footer@.len() - k,
        {
            let l = footer[k].clone();
            push_string(&mut r, l);
            k = k + 1;
            assert(strings_view(footer@).subrange(0, k as int) =~= strings_view(footer@).subrange(0, k - 1).push(
                footer@[k - 1]@,
            ));
        }
        assert(strings_view(footer@).subrange(0, k as int) =~= strings_view(footer@));
        assert(filled == lines + Seq::new(
            (if lines.len() < 18 { (18 - lines.len()) as nat } else { 0nat }),
            |_i: int| "│                                 │"@,
        ));
        r
    }
}

/// A key of the window's keyboard that is not a character.
#[derive(Debug, Clone, Copy, PartialEq, Eq, Structural)]
pub enum WindowKey {
    F10,
    Escape,
    Enter,
    ArrowUp,
    ArrowDown,
    ArrowLeft,
    ArrowRight,
    /// Any other key.
    Other,
}

/// The message a non-character key sends, if any.
pub open spec fn key_message(key: WindowKey) -> Option<IntegratedTuiMessage> {
    match key {
        WindowKey::F10 => Some(IntegratedTuiMessage::F10Key),
        WindowKey::Escape => Some(IntegratedTuiMessage::EscapeKey),
        WindowKey::Enter => Some(IntegratedTuiMessage::EnterKey),
        WindowKey::ArrowUp => Some(IntegratedTuiMessage::ArrowUp),
        WindowKey::ArrowDown => Some(IntegratedTuiMessage::ArrowDown),
        WindowKey::ArrowLeft => Some(IntegratedTuiMessage::ArrowLeft),
        WindowKey::ArrowRight => Some(IntegratedTuiMessage::ArrowRight),
        WindowKey::Other => None,
    }
}

/// The message a non-character key sends, if any.
pub fn map_physical_key_to_tui(key: WindowKey) -> (r: Option<IntegratedTuiMessage>)
    ensures
        r == key_message(key),
{
    match key {
        WindowKey::F10 => Some(IntegratedTuiMessage::F10Key),
        WindowKey::Escape => Some(IntegratedTuiMessage::EscapeKey),
        WindowKey::Enter => Some(IntegratedTuiMessage::EnterKey),
        WindowKey::ArrowUp => Some(IntegratedTuiMessage::ArrowUp),
        WindowKey::ArrowDown => Some(IntegratedTuiMessage::ArrowDown),
        WindowKey::ArrowLeft => Some(IntegratedTuiMessage::ArrowLeft),
        WindowKey::ArrowRight => Some(IntegratedTuiMessage::ArrowRight),
        WindowKey::Other => None,
    }
}

/// What the window reports.
#[derive(Debug, Clone, Copy, PartialEq, Eq, Structural)]
pub enum WindowEvent {
    Close,
    KeyPress(char),
    KeyDown(WindowKey),
    /// Resizing, focus and the like.
    Other,
}

/// The message a window event forwards: closing quits, a character is a
/// key, other keys as `key_message` maps them; nothing else is forwarded.
pub fn window_event_message(event: WindowEvent) -> (r: Option<IntegratedTuiMessage>)
    ensures
        r == match event {
            WindowEvent::Close => Some(IntegratedTuiMessage::Quit),
            WindowEvent::KeyPress(c) => Some(IntegratedTuiMessage::KeyChar(c)),
            WindowEvent::KeyDown(k) => key_message(k),
            WindowEvent::Other => None,
        },
{
    match event {
        WindowEvent::Close => Some(IntegratedTuiMessage::Quit),
        WindowEvent::KeyPress(c) => Some(IntegratedTuiMessage::KeyChar(c)),
        WindowEvent::KeyDown(k) => map_physical_key_to_tui(k),
        WindowEvent::Other => None,
    }
}

} // verus!
