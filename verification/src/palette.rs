//! The command palette: the list of palette commands, searching it and moving
//! through the matches.

use vstd::prelude::*;
use crate::text;
use crate::state;
use crate::state::Order;

verus! {

/// The group a palette command belongs to.
#[derive(Debug, Clone, Copy, PartialEq, Eq, Hash, Structural)]
pub enum CommandCategory {
    Navigation,
    FileOperations,
    View,
    Edit,
    Search,
    System,
    Help,
}

/// The name a category is shown by.
pub open spec fn category_name(c: CommandCategory) -> Seq<char> {
    match c {
        CommandCategory::Navigation => "Navigation"@,
        CommandCategory::FileOperations => "File Operations"@,
        CommandCategory::View => "View"@,
        CommandCategory::Edit => "Edit"@,
        CommandCategory::Search => "Search"@,
        CommandCategory::System => "System"@,
        CommandCategory::Help => "Help"@,
    }
}

impl CommandCategory {
    /// The name the category is shown by.
    pub fn as_str(&self) -> (r: &'static str)
        ensures
            r@ == category_name(*self),
    {
        match self {
            CommandCategory::Navigation => "Navigation",
            CommandCategory::FileOperations => "File Operations",
            CommandCategory::View => "View",
            CommandCategory::Edit => "Edit",
            CommandCategory::Search => "Search",
            CommandCategory::System => "System",
            CommandCategory::Help => "Help",
        }
    }
}

/// A palette command: its name (starting with `/`), what it does, its key
/// and its group.
#[derive(Debug)]
pub struct Command {
    pub name: String,
    pub description: String,
    pub shortcut: Option<String>,
    pub category: CommandCategory,
}

/// A command as values: name, description, key and group.
pub type CommandView = (Seq<char>, Seq<char>, Option<Seq<char>>, CommandCategory);

impl View for Command {
    type V = CommandView;

    open spec fn view(&self) -> CommandView {
        (
            self.name@,
            self.description@,
            match self.shortcut {
                Some(s) => Some(s@),
                None => None,
            },
            self.category,
        )
    }
}

impl Clone for Command {
    fn clone(&self) -> (r: Self)
        ensures
            r == *self,
    {
        Command {
            name: self.name.clone(),
            description: self.description.clone(),
            shortcut: crate::fs::clone_opt_string(&self.shortcut),
            category: self.category,
        }
    }
}

/// The views of some commands.
pub open spec fn commands_view(s: Seq<Command>) -> Seq<CommandView> {
    s.map_values(|c: Command| c@)
}

fn command(name: &str, description: &str, shortcut: Option<&str>, category: CommandCategory) -> (r: Command)
    ensures
        r@ == (name@, description@, match shortcut {
            Some(s) => Some(s@),
            None => None::<Seq<char>>,
        }, category),
{
    Command {
        name: String::from_str(name),
        description: String::from_str(description),
        shortcut: match shortcut {
            Some(s) => Some(String::from_str(s)),
            None => None,
        },
        category,
    }
}

/// Palette commands: system.
pub open spec fn system_defaults() -> Seq<CommandView> {
    seq![
        ("/exit"@, "Exit Cortex"@, Some("Ctrl+Q"@), CommandCategory::System),
        ("/quit"@, "Quit Cortex (alias for exit)"@, Some("Ctrl+Q"@), CommandCategory::System),
        ("/reload"@, "Reload file panels"@, Some("Ctrl+R"@), CommandCategory::System),
        ("/refresh"@, "Refresh current panel"@, None, CommandCategory::System),
    ]
}

/// Palette commands: help and viewing.
pub open spec fn help_and_view_defaults() -> Seq<CommandView> {
    seq![
        ("/keys"@, "Show keyboard shortcuts"@, None, CommandCategory::Help),
        ("/about"@, "About Cortex"@, None, CommandCategory::Help),
        ("/hex"@, "View file in hex mode"@, None, CommandCategory::View),
        ("/preview"@, "Quick preview in opposite panel"@, Some("Ctrl+Q"@), CommandCategory::View),
    ]
}

/// Palette commands: searching.
pub open spec fn search_defaults() -> Seq<CommandView> {
    seq![
        ("/find"@, "Find files by name"@, Some("Ctrl+F"@), CommandCategory::Search),
        ("/grep"@, "Search in file contents"@, None, CommandCategory::Search),
        ("/filter"@, "Quick filter current panel"@, Some("Ctrl+F"@), CommandCategory::Search),
        ("/locate"@, "Locate file in system"@, None, CommandCategory::Search),
    ]
}

/// Palette commands: navigation.
pub open spec fn navigation_defaults() -> Seq<CommandView> {
    seq![
        ("/cd"@, "Change directory"@, None, CommandCategory::Navigation),
        ("/goto"@, "Go to specific path"@, None, CommandCategory::Navigation),
        ("/back"@, "Go back in history"@, Some("Alt+Left"@), CommandCategory::Navigation),
        ("/forward"@, "Go forward in history"@, Some("Alt+Right"@), CommandCategory::Navigation),
        ("/home"@, "Go to home directory"@, None, CommandCategory::Navigation),
        ("/root"@, "Go to root directory"@, None, CommandCategory::Navigation),
    ]
}

/// Palette commands: panel layout.
pub open spec fn panel_defaults() -> Seq<CommandView> {
    seq![
        ("/split"@, "Split panel horizontally"@, None, CommandCategory::View),
        ("/swap"@, "Swap left and right panels"@, Some("Ctrl+U"@), CommandCategory::View),
        ("/sync"@, "Sync panels to same directory"@, None, CommandCategory::View),
        ("/hidden"@, "Toggle hidden files"@, Some("Ctrl+H"@), CommandCategory::View),
        ("/sort"@, "Change sort mode"@, None, CommandCategory::View),
    ]
}

/// Palette commands: setup.
pub open spec fn setup_defaults() -> Seq<CommandView> {
    seq![
        ("/api-key"@, "Configure API keys"@, Some("Ctrl+K"@), CommandCategory::System),
        ("/config"@, "Open configuration"@, None, CommandCategory::System),
        ("/theme"@, "Change color theme"@, None, CommandCategory::System),
    ]
}

fn system_commands() -> (r: Vec<Command>)
    ensures
        commands_view(r@) == system_defaults(),
{
    let mut r: Vec<Command> = Vec::new();
    r.push(command("/exit", "Exit Cortex", Some("Ctrl+Q"), CommandCategory::System));
    r.push(command("/quit", "Quit Cortex (alias for exit)", Some("Ctrl+Q"), CommandCategory::System));
    r.push(command("/reload", "Reload file panels", Some("Ctrl+R"), CommandCategory::System));
    r.push(command("/refresh", "Refresh current panel", None, CommandCategory::System));
    assert(commands_view(r@) =~= system_defaults());
    r
}

fn help_and_view_commands() -> (r: Vec<Command>)
    ensures
        commands_view(r@) == help_and_view_defaults(),
{
    let mut r: Vec<Command> = Vec::new();
    r.push(command("/keys", "Show keyboard shortcuts", None, CommandCategory::Help));
    r.push(command("/about", "About Cortex", None, CommandCategory::Help));
    r.push(command("/hex", "View file in hex mode", None, CommandCategory::View));
    r.push(command("/preview", "Quick preview in opposite panel", Some("Ctrl+Q"), CommandCategory::View));
    assert(commands_view(r@) =~= help_and_view_defaults());
    r
}

fn search_commands() -> (r: Vec<Command>)
    ensures
        commands_view(r@) == search_defaults(),
{
    let mut r: Vec<Command> = Vec::new();
    r.push(command("/find", "Find files by name", Some("Ctrl+F"), CommandCategory::Search));
    r.push(command("/grep", "Search in file contents", None, CommandCategory::Search));
    r.push(command("/filter", "Quick filter current panel", Some("Ctrl+F"), CommandCategory::Search));
    r.push(command("/locate", "Locate file in system", None, CommandCategory::Search));
    assert(commands_view(r@) =~= search_defaults());
    r
}

fn navigation_commands() -> (r: Vec<Command>)
    ensures
        commands_view(r@) == navigation_defaults(),
{
    let mut r: Vec<Command> = Vec::new();
    r.push(command("/cd", "Change directory", None, CommandCategory::Navigation));
    r.push(command("/goto", "Go to specific path", None, CommandCategory::Navigation));
    r.push(command("/back", "Go back in history", Some("Alt+Left"), CommandCategory::Navigation));
    r.push(command("/forward", "Go forward in history", Some("Alt+Right"), CommandCategory::Navigation));
    r.push(command("/home", "Go to home directory", None, CommandCategory::Navigation));
    r.push(command("/root", "Go to root directory", None, CommandCategory::Navigation));
    assert(commands_view(r@) =~= navigation_defaults());
    r
}

fn panel_commands() -> (r: Vec<Command>)
    ensures
        commands_view(r@) == panel_defaults(),
{
    let mut r: Vec<Command> = Vec::new();
    r.push(command("/split", "Split panel horizontally", None, CommandCategory::View));
    r.push(command("/swap", "Swap left and right panels", Some("Ctrl+U"), CommandCategory::View));
    r.push(command("/sync", "Sync panels to same directory", None, CommandCategory::View));
    r.push(command("/hidden", "Toggle hidden files", Some("Ctrl+H"), CommandCategory::View));
    r.push(command("/sort", "Change sort mode", None, CommandCategory::View));
    assert(commands_view(r@) =~= panel_defaults());
    r
}

fn setup_commands() -> (r: Vec<Command>)
    ensures
        commands_view(r@) == setup_defaults(),
{
    let mut r: Vec<Command> = Vec::new();
    r.push(command("/api-key", "Configure API keys", Some("Ctrl+K"), CommandCategory::System));
    r.push(command("/config", "Open configuration", None, CommandCategory::System));
    r.push(command("/theme", "Change color theme", None, CommandCategory::System));
    assert(commands_view(r@) =~= setup_defaults());
    r
}

/// The palette's commands, in the order they are listed.
pub open spec fn default_commands() -> Seq<CommandView> {
    system_defaults() + help_and_view_defaults() + search_defaults() + navigation_defaults()
        + panel_defaults() + setup_defaults()
}

fn append_commands(all: &mut Vec<Command>, g: Vec<Command>)
    ensures
        commands_view(final(all)@) == commands_view(old(all)@) + commands_view(g@),
{
    let ghost gv = g@;
    let mut g = g;
    all.append(&mut g);
    assert(commands_view(all@) =~= commands_view(old(all)@) + commands_view(gv));
}

fn default_command_list() -> (r: Vec<Command>)
    ensures
        commands_view(r@) == default_commands(),
{
    let mut all = system_commands();
    append_commands(&mut all, help_and_view_commands());
    append_commands(&mut all, search_commands());
    append_commands(&mut all, navigation_commands());
    append_commands(&mut all, panel_commands());
    append_commands(&mut all, setup_commands());
    all
}

/// The listing order: by category name, then by command name.
pub open spec fn listing_order(a: CommandView, b: CommandView) -> Order {
    state::then_order(
        state::lex_order(category_name(a.3), category_name(b.3)),
        state::lex_order(a.0, b.0),
    )
}

/// A command's name without its leading `/`.
pub open spec fn name_key(c: CommandView) -> Seq<char> {
    if c.0.len() > 0 {
        c.0.drop_first()
    } else {
        Seq::empty()
    }
}

/// Whether a command's name (without `/`, lowercased) starts with the search
/// text.
pub open spec fn name_starts(c: CommandView, search: Seq<char>) -> bool {
    text::seq_starts_with(text::lowercase(name_key(c)), search)
}

/// The order of search results: commands whose name starts with the search
/// text first, then the listing order.
pub open spec fn search_order(a: CommandView, b: CommandView, search: Seq<char>) -> Order {
    if name_starts(a, search) && !name_starts(b, search) {
        Order::Less
    } else if !name_starts(a, search) && name_starts(b, search) {
        Order::Greater
    } else {
        listing_order(a, b)
    }
}

/// The listing order without a search, the search order with one.
pub open spec fn palette_order(a: CommandView, b: CommandView, search: Option<Seq<char>>) -> Order {
    match search {
        None => listing_order(a, b),
        Some(t) => search_order(a, b, t),
    }
}

/// Commands are in palette order.
pub open spec fn sorted_by(s: Seq<CommandView>, search: Option<Seq<char>>) -> bool {
    forall|i: int| 0 <= i < s.len() - 1 ==> palette_order(s[i], #[trigger] s[i + 1], search) != Order::Greater
}

/// Whether a command matches a search text: in its name (without `/`), its
/// description or its category name, ignoring case.
pub open spec fn matches_search(c: CommandView, search: Seq<char>) -> bool {
    text::seq_contains(text::lowercase(name_key(c)), search) || text::seq_contains(
        text::lowercase(c.1),
        search,
    ) || text::seq_contains(text::lowercase(category_name(c.3)), search)
}

/// The search text of a query: without a leading `/`, lowercased.
pub open spec fn search_text(query: Seq<char>) -> Seq<char> {
    text::lowercase(
        if query.len() > 0 && query[0] == '/' {
            query.drop_first()
        } else {
            query
        },
    )
}

/// Whether a query lists every command: it is empty or just `/`.
pub open spec fn lists_all(query: Seq<char>) -> bool {
    query.len() == 0 || query == seq!['/']
}

/// The commands that match a search text, in their listed order.
pub open spec fn matching(s: Seq<CommandView>, search: Seq<char>) -> Seq<CommandView> {
    s.filter(|c: CommandView| matches_search(c, search))
}

/// The commands of a category, in order.
pub open spec fn in_category(s: Seq<CommandView>, cat: CommandCategory) -> Seq<CommandView> {
    s.filter(|c: CommandView| c.3 == cat)
}

proof fn lemma_palette_antisym(a: CommandView, b: CommandView, search: Option<Seq<char>>)
    ensures
        palette_order(a, b, search) == Order::Greater ==> palette_order(b, a, search) == Order::Less,
{
    state::lemma_lex_antisym(category_name(a.3), category_name(b.3));
    state::lemma_lex_antisym(category_name(b.3), category_name(a.3));
    state::lemma_lex_antisym(a.0, b.0);
    state::lemma_lex_antisym(b.0, a.0);
}

proof fn lemma_sorted_at(s: Seq<CommandView>, search: Option<Seq<char>>, i: int)
    requires
        sorted_by(s, search),
        0 <= i < s.len() - 1,
    ensures
        palette_order(s[i], s[i + 1], search) != Order::Greater,
{
    assert(s[i + 1] == s[i + 1]);
}

/// The lowercased characters of a string slice.
fn lower_chars(s: &str) -> (r: Vec<char>)
    ensures
        r@ == text::lowercase(s@),
{
    let l = text::to_lowercase(s);
    text::chars_of(l.as_str())
}

/// The lowercased name of a command without its leading `/`.
fn name_key_lower(c: &Command) -> (r: Vec<char>)
    ensures
        r@ == text::lowercase(name_key(c@)),
{
    let cs = text::chars_of(c.name.as_str());
    if cs.len() == 0 {
        let e = String::new();
        assert(c@.0 =~= Seq::<char>::empty());
        return lower_chars(e.as_str());
    }
    let tail = vstd::slice::slice_subrange(cs.as_slice(), 1, cs.len());
    assert(tail@ =~= name_key(c@));
    let t = text::string_from_chars(tail);
    lower_chars(t.as_str())
}

/// Compares two commands in palette order.
fn compare_commands(a: &Command, b: &Command, search: &Option<Vec<char>>) -> (r: Order)
    ensures
        r == palette_order(a@, b@, opt_chars(*search)),
{
    if let Some(t) = search {
        let ka = name_key_lower(a);
        let kb = name_key_lower(b);
        let am = text::starts_with_chars(ka.as_slice(), t.as_slice());
        let bm = text::starts_with_chars(kb.as_slice(), t.as_slice());
        if am && !bm {
            return Order::Less;
        } else if !am && bm {
            return Order::Greater;
        }
    }
    let ca = text::chars_of(a.category.as_str());
    let cb = text::chars_of(b.category.as_str());
    let o = state::lex_compare(ca.as_slice(), cb.as_slice());
    match o {
        Order::Equal => {
            let na = text::chars_of(a.name.as_str());
            let nb = text::chars_of(b.name.as_str());
            state::lex_compare(na.as_slice(), nb.as_slice())
        },
        _ => o,
    }
}

/// The view of an optional character vector.
pub open spec fn opt_chars(o: Option<Vec<char>>) -> Option<Seq<char>> {
    match o {
        Some(v) => Some(v@),
        None => None,
    }
}

/// Where `x` goes among sorted commands: before the first that comes after
/// it, so after those that compare alike.
pub open spec fn insertion_point(s: Seq<CommandView>, x: CommandView, search: Option<Seq<char>>) -> int
    decreases s.len(),
{
    if s.len() == 0 {
        0
    } else if palette_order(s[0], x, search) == Order::Greater {
        0
    } else {
        1 + insertion_point(s.drop_first(), x, search)
    }
}

/// The commands in palette order, those that compare alike kept in the
/// order given (a stable sort).
pub open spec fn palette_sorted(v: Seq<CommandView>, search: Option<Seq<char>>) -> Seq<CommandView>
    decreases v.len(),
{
    if v.len() == 0 {
        v
    } else {
        let s = palette_sorted(v.drop_last(), search);
        s.insert(insertion_point(s, v.last(), search), v.last())
    }
}

proof fn lemma_insertion_point(s: Seq<CommandView>, x: CommandView, search: Option<Seq<char>>, j: int)
    requires
        0 <= j <= s.len(),
        forall|t: int| 0 <= t < j ==> palette_order(#[trigger] s[t], x, search) != Order::Greater,
        j < s.len() ==> palette_order(s[j], x, search) == Order::Greater,
    ensures
        insertion_point(s, x, search) == j,
    decreases j,
{
    if j > 0 {
        let d = s.drop_first();
        assert forall|t: int| 0 <= t < j - 1 implies palette_order(#[trigger] d[t], x, search) != Order::Greater by {
            assert(d[t] == s[t + 1]);
        }
        if j < s.len() {
            assert(d[j - 1] == s[j]);
        }
        assert(palette_order(s[0], x, search) != Order::Greater);
        lemma_insertion_point(d, x, search, j - 1);
    }
}

/// Sorts commands in palette order, keeping the order of commands that
/// compare alike.
fn sort_commands_by(v: Vec<Command>, search: &Option<Vec<char>>) -> (r: Vec<Command>)
    ensures
        commands_view(r@).to_multiset() == commands_view(v@).to_multiset(),
        sorted_by(commands_view(r@), opt_chars(*search)),
        commands_view(r@) == palette_sorted(commands_view(v@), opt_chars(*search)),
{
    let ghost sv = opt_chars(*search);
    let mut r: Vec<Command> = Vec::new();
    let mut k: usize = 0;
    assert(commands_view(v@).take(0) =~= Seq::<CommandView>::empty());
    assert(commands_view(r@) =~= Seq::<CommandView>::empty());
    while k < v.len()
        invariant
            k <= v@.len(),
            sv == opt_chars(*search),
            commands_view(r@).to_multiset() == commands_view(v@).take(k as int).to_multiset(),
            sorted_by(commands_view(r@), sv),
            commands_view(r@) == palette_sorted(commands_view(v@).take(k as int), sv),
        decreases v@.len() - k,
    {
        let x = v[k].clone();
        let mut j: usize = 0;
        loop
            invariant_except_break
                j <= r@.len(),
                sv == opt_chars(*search),
                forall|t: int| 0 <= t < j ==> palette_order(#[trigger] r@[t]@, x@, sv) != Order::Greater,
            ensures
                j <= r@.len(),
                j < r@.len() ==> palette_order(r@[j as int]@, x@, sv) == Order::Greater,
                forall|t: int| 0 <= t < j ==> palette_order(#[trigger] r@[t]@, x@, sv) != Order::Greater,
            decreases r@.len() - j,
        {
            if j >= r.len() {
                break;
            }
            if compare_commands(&r[j], &x, search) == Order::Greater {
                break;
            }
            j = j + 1;
        }
        let ghost old_r = commands_view(r@);
        let ghost old_raw = r@;
        let ghost item = x@;
        r.insert(j, x);
        assert(commands_view(r@) =~= old_r.insert(j as int, item));
        proof {
            assert forall|t: int| 0 <= t < j implies palette_order(#[trigger] old_r[t], item, sv) != Order::Greater by {
                assert(old_r[t] == old_raw[t]@);
            }
            if j < old_r.len() {
                assert(old_r[j as int] == old_raw[j as int]@);
            }
            lemma_insertion_point(old_r, item, sv, j as int);
            let tk = commands_view(v@).take(k + 1);
            assert(tk.drop_last() =~= commands_view(v@).take(k as int));
            assert(tk.last() == item);
            vstd::seq_lib::to_multiset_insert(old_r, j as int, item);
            assert(commands_view(v@).take(k + 1) =~= commands_view(v@).take(k as int).push(item));
            vstd::seq_lib::to_multiset_build(commands_view(v@).take(k as int), item);
            if j < old_r.len() {
                assert(old_r[j as int] == old_raw[j as int]@);
                lemma_palette_antisym(old_r[j as int], item, sv);
            }
        }
        let ghost nr = commands_view(r@);
        assert forall|i: int| 0 <= i < nr.len() - 1 implies palette_order(nr[i], #[trigger] nr[i + 1], sv)
            != Order::Greater by {
            if i + 1 < j {
                assert(nr[i] == old_r[i] && nr[i + 1] == old_r[i + 1]);
            } else if i + 1 == j {
                assert(nr[i] == old_r[i] && old_r[i] == old_raw[i]@);
                assert(nr[i + 1] == item);
            } else if i == j {
                assert(nr[i + 1] == old_r[i]);
                assert(nr[i] == item);
            } else {
                assert(nr[i] == old_r[i - 1] && nr[i + 1] == old_r[i]);
                lemma_sorted_at(old_r, sv, i - 1);
            }
        }
        k = k + 1;
    }
    assert(commands_view(v@).take(v@.len() as int) =~= commands_view(v@));
    r
}

/// Whether a command matches a search text.
fn command_matches(c: &Command, search: &Vec<char>) -> (r: bool)
    ensures
        r == matches_search(c@, search@),
{
    let n = name_key_lower(c);
    if text::contains_chars(n.as_slice(), search.as_slice()) {
        return true;
    }
    let d = lower_chars(c.description.as_str());
    if text::contains_chars(d.as_slice(), search.as_slice()) {
        return true;
    }
    let g = lower_chars(c.category.as_str());
    text::contains_chars(g.as_slice(), search.as_slice())
}

/// Copies of the commands that match a search text, in order.
fn matching_commands(cs: &Vec<Command>, search: &Vec<char>) -> (r: Vec<Command>)
    ensures
        commands_view(r@) == matching(commands_view(cs@), search@),
{
    let ghost pred = |c: CommandView| matches_search(c, search@);
    let mut r: Vec<Command> = Vec::new();
    let mut i: usize = 0;
    proof {
        reveal(Seq::filter);
        assert(commands_view(cs@).take(0) =~= Seq::<CommandView>::empty());
        assert(commands_view(r@) =~= Seq::<CommandView>::empty());
    }
    while i < cs.len()
        invariant
            i <= cs@.len(),
            pred == (|c: CommandView| matches_search(c, search@)),
            commands_view(r@) == commands_view(cs@).take(i as int).filter(pred),
        decreases cs@.len() - i,
    {
        let ghost before = r@;
        let ghost tk = commands_view(cs@).take(i + 1);
        assert(tk.drop_last() =~= commands_view(cs@).take(i as int));
        assert(tk.last() == cs@[i as int]@);
        proof {
            reveal(Seq::filter);
        }
        if command_matches(&cs[i], search) {
            r.push(cs[i].clone());
            assert(commands_view(r@) =~= commands_view(before).push(cs@[i as int]@));
        }
        i = i + 1;
    }
    assert(commands_view(cs@).take(cs@.len() as int) =~= commands_view(cs@));
    r
}

/// Copies of some commands.
fn clone_commands(cs: &Vec<Command>) -> (r: Vec<Command>)
    ensures
        r@ == cs@,
{
    let mut r: Vec<Command> = Vec::new();
    let mut i: usize = 0;
    while i < cs.len()
        invariant
            i <= cs@.len(),
            r@ == cs@.take(i as int),
        decreases cs@.len() - i,
    {
        r.push(cs[i].clone());
        assert(r@ =~= cs@.take(i + 1));
        i = i + 1;
    }
    assert(cs@.take(cs@.len() as int) =~= cs@);
    r
}

/// Whether some group has the given category.
pub open spec fn has_group(groups: Seq<(CommandCategory, Seq<CommandView>)>, cat: CommandCategory) -> bool {
    exists|g: int| 0 <= g < groups.len() && #[trigger] groups[g].0 == cat
}

/// The view of grouped commands.
pub open spec fn groups_view(r: Seq<(CommandCategory, Vec<Command>)>) -> Seq<(CommandCategory, Seq<CommandView>)> {
    r.map_values(|p: (CommandCategory, Vec<Command>)| (p.0, commands_view(p.1@)))
}

proof fn lemma_filter_none(s: Seq<CommandView>, cat: CommandCategory)
    requires
        forall|i: int| 0 <= i < s.len() ==> #[trigger] s[i].3 != cat,
    ensures
        in_category(s, cat) == Seq::<CommandView>::empty(),
    decreases s.len(),
{
    reveal(Seq::filter);
    if s.len() > 0 {
        lemma_filter_none(s.drop_last(), cat);
        assert(s.last().3 != cat);
    }
}

/// The command palette: the commands, those shown for the current search,
/// and the selected one.
pub struct CommandPalette {
    commands: Vec<Command>,
    filtered_commands: Vec<Command>,
    selected_index: usize,
}

impl CommandPalette {
    /// Every palette command.
    pub closed spec fn all(&self) -> Seq<CommandView> {
        commands_view(self.commands@)
    }

    /// The commands shown.
    pub closed spec fn shown(&self) -> Seq<CommandView> {
        commands_view(self.filtered_commands@)
    }

    /// The position of the selected command among those shown.
    pub closed spec fn selected(&self) -> nat {
        self.selected_index as nat
    }

    /// The palette with every command shown in listing order and the first
    /// one selected.
    pub fn new() -> (r: Self)
        ensures
            r.all() == default_commands(),
            r.shown() == palette_sorted(default_commands(), None),
            r.shown().to_multiset() == default_commands().to_multiset(),
            sorted_by(r.shown(), None),
            r.selected() == 0,
    {
        let commands = default_command_list();
        let copy = clone_commands(&commands);
        let filtered_commands = sort_commands_by(copy, &None);
        CommandPalette { commands, filtered_commands, selected_index: 0 }
    }

    /// Shows the commands that match a query (every command where the query is
    /// empty or `/`), in search order; the selection goes back to the first
    /// command where it is past the end.
    pub fn filter(&mut self, query: &str)
        ensures
            final(self).all() == old(self).all(),
            lists_all(query@) ==> final(self).shown() == palette_sorted(old(self).all(), None)
                && final(self).shown().to_multiset() == old(self).all().to_multiset()
                && sorted_by(final(self).shown(), None),
            !lists_all(query@) ==> final(self).shown() == palette_sorted(
                matching(old(self).all(), search_text(query@)),
                Some(search_text(query@)),
            ),
            !lists_all(query@) ==> final(self).shown().to_multiset() == matching(
                old(self).all(),
                search_text(query@),
            ).to_multiset() && sorted_by(final(self).shown(), Some(search_text(query@))),
            final(self).selected() == (if old(self).selected() >= final(self).shown().len()
                && final(self).shown().len() > 0 {
                0
            } else {
                old(self).selected()
            }),
    {
        let qs = text::chars_of(query);
        let is_slash = qs.len() == 1 && qs[0] == '/';
        assert(is_slash == (query@ == seq!['/'])) by {
            if qs@.len() == 1 && qs@[0] == '/' {
                assert(query@ =~= seq!['/']);
            }
        }
        if qs.len() == 0 || is_slash {
            let copy = clone_commands(&self.commands);
            self.filtered_commands = sort_commands_by(copy, &None);
        } else {
            let q = if qs[0] == '/' {
                let tail = vstd::slice::slice_subrange(qs.as_slice(), 1, qs.len());
                assert(tail@ =~= query@.drop_first());
                text::string_from_chars(tail)
            } else {
                String::from_str(query)
            };
            let search = lower_chars(q.as_str());
            let found = matching_commands(&self.commands, &search);
            self.filtered_commands = sort_commands_by(found, &Some(search));
        }
        if self.selected_index >= self.filtered_commands.len() && self.filtered_commands.len() > 0 {
            self.selected_index = 0;
        }
    }

    /// Selects the previous command, if any.
    pub fn move_selection_up(&mut self)
        ensures
            final(self).all() == old(self).all(),
            final(self).shown() == old(self).shown(),
            final(self).selected() == (if old(self).selected() > 0 {
                old(self).selected() - 1
            } else {
                0
            }),
    {
        if self.selected_index > 0 {
            self.selected_index = self.selected_index - 1;
        }
    }

    /// Selects the next command, if any.
    pub fn move_selection_down(&mut self)
        ensures
            final(self).all() == old(self).all(),
            final(self).shown() == old(self).shown(),
            final(self).selected() == (if old(self).selected() + 1 < old(self).shown().len() {
                old(self).selected() + 1
            } else {
                old(self).selected()
            }),
    {
        let last = if self.filtered_commands.len() > 0 { self.filtered_commands.len() - 1 } else { 0 };
        if self.selected_index < last {
            self.selected_index = self.selected_index + 1;
        }
    }

    /// The selected command, if the selection is on one.
    pub fn get_selected(&self) -> (r: Option<&Command>)
        ensures
            r matches Some(c) ==> self.selected() < self.shown().len() && c@ == self.shown()[self.selected() as int],
            r is None <==> self.selected() >= self.shown().len(),
    {
        if self.selected_index < self.filtered_commands.len() {
            Some(&self.filtered_commands[self.selected_index])
        } else {
            None
        }
    }

    /// The commands shown.
    pub fn get_filtered_commands(&self) -> (r: &[Command])
        ensures
            commands_view(r@) == self.shown(),
    {
        self.filtered_commands.as_slice()
    }

    /// The position of the selection.
    pub fn get_selected_index(&self) -> (r: usize)
        ensures
            r == self.selected(),
    {
        self.selected_index
    }

    /// Shows every command again and selects the first.
    pub fn reset(&mut self)
        ensures
            final(self).all() == old(self).all(),
            final(self).shown() == palette_sorted(old(self).all(), None),
            final(self).shown().to_multiset() == old(self).all().to_multiset(),
            sorted_by(final(self).shown(), None),
            final(self).selected() == 0,
    {
        let copy = clone_commands(&self.commands);
        self.filtered_commands = sort_commands_by(copy, &None);
        self.selected_index = 0;
    }

    /// The commands shown, grouped by category: one group per category that
    /// occurs, holding its commands in the order they are shown.
    pub fn get_grouped_commands(&self) -> (r: Vec<(CommandCategory, Vec<Command>)>)
        ensures
            forall|a: int, b: int|
                0 <= a < r@.len() && 0 <= b < r@.len() && a != b ==> #[trigger] r@[a].0 != #[trigger] r@[b].0,
            forall|g: int|
                0 <= g < r@.len() ==> commands_view((#[trigger] r@[g]).1@) == in_category(self.shown(), r@[g].0)
                    && r@[g].1@.len() > 0,
            forall|i: int| 0 <= i < self.shown().len() ==> has_group(groups_view(r@), #[trigger] self.shown()[i].3),
    {
        let ghost shown = self.shown();
        let mut r: Vec<(CommandCategory, Vec<Command>)> = Vec::new();
        let mut i: usize = 0;
        while i < self.filtered_commands.len()
            invariant
                shown == self.shown(),
                i <= shown.len(),
                forall|a: int, b: int|
                    0 <= a < r@.len() && 0 <= b < r@.len() && a != b ==> #[trigger] r@[a].0 != #[trigger] r@[b].0,
                forall|g: int|
                    0 <= g < r@.len() ==> commands_view((#[trigger] r@[g]).1@) == in_category(shown.take(i as int), r@[g].0)
                        && r@[g].1@.len() > 0,
                forall|j: int| 0 <= j < i ==> has_group(groups_view(r@), #[trigger] shown[j].3),
            decreases shown.len() - i,
        {
            let c = self.filtered_commands[i].clone();
            assert(c@ == shown[i as int]);
            let cat = c.category;
            let ghost p = shown.take(i as int);
            let ghost p2 = shown.take(i + 1);
            assert(p2.drop_last() =~= p);
            assert(p2.last() == c@);
            assert forall|k: CommandCategory| in_category(p2, k) == (if c@.3 == k {
                in_category(p, k).push(c@)
            } else {
                in_category(p, k)
            }) by {
                reveal(Seq::filter);
            }
            let mut g: usize = 0;
            while g < r.len()
                invariant_except_break
                    g <= r@.len(),
                    forall|t: int| 0 <= t < g ==> (#[trigger] r@[t]).0 != cat,
                ensures
                    g <= r@.len(),
                    forall|t: int| 0 <= t < g ==> (#[trigger] r@[t]).0 != cat,
                    g < r@.len() ==> r@[g as int].0 == cat,
                decreases r@.len() - g,
            {
                if r[g].0 == cat {
                    break;
                }
                g = g + 1;
            }
            let ghost old_r = r@;
            if g < r.len() {
                let (k, mut v) = r.remove(g);
                v.push(c);
                r.insert(g, (k, v));
                assert forall|t: int| 0 <= t < r@.len() implies (if t == g {
                    r@[t].0 == old_r[t].0 && commands_view(r@[t].1@) == commands_view(old_r[t].1@).push(c@)
                } else {
                    r@[t] == old_r[t]
                }) by {
                    if t == g {
                        assert(commands_view(r@[t].1@) =~= commands_view(old_r[t].1@).push(c@));
                    }
                }
            } else {
                assert forall|j: int| 0 <= j < p.len() implies #[trigger] p[j].3 != cat by {
                    assert(p[j] == shown[j]);
                    assert(has_group(groups_view(old_r), shown[j].3));
                    let w = choose|w: int| 0 <= w < groups_view(old_r).len() && #[trigger] groups_view(old_r)[w].0 == shown[j].3;
                    assert(groups_view(old_r)[w].0 == old_r[w].0);
                }
                proof {
                    lemma_filter_none(p, cat);
                }
                let mut v: Vec<Command> = Vec::new();
                v.push(c);
                r.push((cat, v));
                assert(commands_view(r@[g as int].1@) =~= Seq::<CommandView>::empty().push(c@));
            }
            assert(r@[g as int].0 == cat);
            assert forall|t: int| 0 <= t < old_r.len() implies #[trigger] r@[t].0 == old_r[t].0 by {}
            assert forall|t: int| 0 <= t < r@.len() implies commands_view((#[trigger] r@[t]).1@) == in_category(p2, r@[t].0)
                && r@[t].1@.len() > 0 by {
                if t != g as int {
                    assert(r@[t] == old_r[t]);
                    assert(old_r[t].0 != cat);
                }
            }
            assert forall|j: int| 0 <= j < i + 1 implies has_group(groups_view(r@), #[trigger] shown[j].3) by {
                if j < i {
                    let w = choose|w: int| 0 <= w < groups_view(old_r).len() && #[trigger] groups_view(old_r)[w].0 == shown[j].3;
                    assert(groups_view(old_r)[w].0 == old_r[w].0);
                    assert(groups_view(r@)[w].0 == r@[w].0);
                } else {
                    assert(groups_view(r@)[g as int].0 == r@[g as int].0);
                }
            }
            i = i + 1;
        }
        assert(shown.take(shown.len() as int) =~= shown);
        r
    }
}

/// Resetting a palette shows the list a new palette shows, element by
/// element: every command, in listing order. A palette's commands are the
/// default ones from `new` on, as no operation changes them.
pub proof fn law_reset_shows_the_new_listing(all: Seq<CommandView>)
    requires
        all == default_commands(),
    ensures
        palette_sorted(all, None) == palette_sorted(default_commands(), None),
        palette_sorted(all, None).to_multiset() == default_commands().to_multiset(),
{
    lemma_palette_sorted_permutes(all, None);
}

proof fn lemma_palette_sorted_permutes(v: Seq<CommandView>, search: Option<Seq<char>>)
    ensures
        palette_sorted(v, search).to_multiset() == v.to_multiset(),
    decreases v.len(),
{
    if v.len() > 0 {
        let s = palette_sorted(v.drop_last(), search);
        lemma_palette_sorted_permutes(v.drop_last(), search);
        lemma_insertion_point_bounds(s, v.last(), search);
        vstd::seq_lib::to_multiset_insert(s, insertion_point(s, v.last(), search), v.last());
        assert(v.drop_last().push(v.last()) =~= v);
        vstd::seq_lib::to_multiset_build(v.drop_last(), v.last());
    }
}

proof fn lemma_insertion_point_bounds(s: Seq<CommandView>, x: CommandView, search: Option<Seq<char>>)
    ensures
        0 <= insertion_point(s, x, search) <= s.len(),
    decreases s.len(),
{
    if s.len() > 0 {
        lemma_insertion_point_bounds(s.drop_first(), x, search);
    }
}

} // verus!
