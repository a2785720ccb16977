//! File search: the search criteria, the name and line matchers (wildcard,
//! regular expression, exact, substring), the file filters and the results.

use vstd::prelude::*;
use crate::text;
use crate::commands;

verus! {

#[verifier::external_type_specification]
#[verifier::external_body]
pub struct ExRegex(regex::Regex);

#[verifier::external_type_specification]
#[verifier::external_body]
pub struct ExRegexError(regex::Error);

/// How a search pattern is read.
#[derive(Debug, Clone, Copy, PartialEq, Eq, Structural)]
pub enum SearchType {
    /// `*` for any text, `?` for one character, as in `*.txt`.
    Wildcard,
    /// A regular expression.
    Regex,
    /// The whole text.
    Exact,
    /// Part of the text.
    Contains,
}

/// Bounds on a file's size in bytes.
#[derive(Debug, Clone, Copy, PartialEq, Eq, Structural)]
pub struct SizeFilter {
    pub min_size: Option<u64>,
    pub max_size: Option<u64>,
}

/// Bounds on a file's modification time, in nanoseconds since the Unix epoch.
#[derive(Debug, Clone, Copy, PartialEq, Eq, Structural)]
pub struct DateFilter {
    pub after: Option<i128>,
    pub before: Option<i128>,
}

/// What to search for and where.
#[derive(Debug)]
pub struct SearchCriteria {
    pub pattern: String,
    pub search_type: SearchType,
    pub case_sensitive: bool,
    pub search_in_files: bool,
    pub include_hidden: bool,
    pub include_subdirs: bool,
    pub max_depth: Option<usize>,
    pub file_extensions: Vec<String>,
    pub size_filter: Option<SizeFilter>,
    pub date_filter: Option<DateFilter>,
}

/// A line of a file that matches.
#[derive(Debug)]
pub struct Match {
    pub line_number: Option<usize>,
    pub line_content: Option<String>,
    pub byte_offset: Option<usize>,
}

impl Clone for Match {
    fn clone(&self) -> (r: Self)
        ensures
            r == *self,
    {
        Match {
            line_number: self.line_number,
            line_content: crate::fs::clone_opt_string(&self.line_content),
            byte_offset: self.byte_offset,
        }
    }
}

/// A file found, with its size, its modification time (nanoseconds since the
/// Unix epoch) and its matching lines.
#[derive(Debug)]
pub struct SearchResult {
    pub path: String,
    pub size: u64,
    pub modified: i128,
    pub matches: Vec<Match>,
}

/// Progress reports of a running search.
#[derive(Debug)]
pub enum SearchProgress {
    Started { total_dirs: usize },
    Searching { current_path: String, searched: usize, total: usize },
    Found { result: SearchResult },
    Completed { total_found: usize, elapsed_ms: u128 },
    Error { path: String, error: String },
}

/// Whether a pattern is a regular expression that `regex::Regex::new` accepts.
pub uninterp spec fn regex_valid(pattern: Seq<char>) -> bool;

/// Whether the regular expression `pattern` matches somewhere in `text`, as
/// `regex::Regex::is_match` decides.
pub uninterp spec fn regex_match(pattern: Seq<char>, text: Seq<char>) -> bool;

/// A compiled regular expression with the pattern it was compiled from.
pub struct CompiledPattern {
    source: String,
    regex: regex::Regex,
}

impl CompiledPattern {
    /// The pattern it was compiled from.
    pub closed spec fn source(&self) -> Seq<char> {
        self.source@
    }
}

/// Calls `regex::Regex::new`: the pattern compiles exactly when it is
/// `regex_valid`, and the compiled form keeps the pattern.
#[verifier::external_body]
fn compile_regex(pattern: &str) -> (r: Result<CompiledPattern, regex::Error>)
    ensures
        r is Ok <==> regex_valid(pattern@),
        r matches Ok(c) ==> c.source() == pattern@,
{
    match regex::Regex::new(pattern) {
        Ok(regex) => Ok(CompiledPattern { source: pattern.to_string(), regex }),
        Err(e) => Err(e),
    }
}

/// Calls `regex::Regex::is_match`: whether the compiled pattern matches
/// somewhere in the text.
#[verifier::external_body]
fn regex_is_match(c: &CompiledPattern, text: &str) -> (r: bool)
    ensures
        r == regex_match(c.source(), text@),
{
    c.regex.is_match(text)
}

/// The regular expression a wildcard pattern stands for: `.` literal, `*` any
/// text, `?` any character.
pub open spec fn wildcard_regex(p: Seq<char>) -> Seq<char> {
    commands::replace_all(
        commands::replace_all(commands::replace_all(p, "."@, "\\."@), "*"@, ".*"@),
        "?"@,
        "."@,
    )
}

/// How a search matches a name or a line.
pub enum Matcher {
    Wildcard { pattern: String, case_sensitive: bool },
    Regex(CompiledPattern),
    Exact { pattern: String, case_sensitive: bool },
    Contains { pattern: String, case_sensitive: bool },
}

/// A text as compared: itself, or lowercased where case does not matter.
pub open spec fn folded(s: Seq<char>, case_sensitive: bool) -> Seq<char> {
    if case_sensitive {
        s
    } else {
        text::lowercase(s)
    }
}

/// Whether a matcher accepts a text: a wildcard pattern must match the whole
/// text (and form a valid expression), a regular expression matches anywhere,
/// an exact pattern equals the text, a substring occurs in it; case is ignored
/// unless it matters.
pub open spec fn accepts(m: &Matcher, t: Seq<char>) -> bool {
    match m {
        Matcher::Wildcard { pattern, case_sensitive } => {
            let re = "^"@ + wildcard_regex(folded(pattern@, *case_sensitive)) + "$"@;
            regex_valid(re) && regex_match(re, folded(t, *case_sensitive))
        },
        Matcher::Regex(c) => regex_match(c.source(), t),
        Matcher::Exact { pattern, case_sensitive } => folded(t, *case_sensitive) == folded(
            pattern@,
            *case_sensitive,
        ),
        Matcher::Contains { pattern, case_sensitive } => text::seq_contains(
            folded(t, *case_sensitive),
            folded(pattern@, *case_sensitive),
        ),
    }
}

/// A case-sensitive exact pattern accepts exactly the text equal to it, and
/// one that ignores case the texts equal to it once both are lowercased; a
/// substring pattern accepts every text in which it occurs (here from
/// position `i` on), lowercased first where case is ignored.
pub proof fn law_exact_and_substring_patterns(p: String, t: Seq<char>, i: int)
    ensures
        accepts(&Matcher::Exact { pattern: p, case_sensitive: true }, t) <==> t == p@,
        accepts(&Matcher::Exact { pattern: p, case_sensitive: false }, t) <==> text::lowercase(t)
            == text::lowercase(p@),
        (0 <= i && i + p@.len() <= t.len() && t.subrange(i, i + p@.len()) == p@) ==> accepts(
            &Matcher::Contains { pattern: p, case_sensitive: true },
            t,
        ),
        (0 <= i && i + text::lowercase(p@).len() <= text::lowercase(t).len() && text::lowercase(
            t,
        ).subrange(i, i + text::lowercase(p@).len()) == text::lowercase(p@)) ==> accepts(
            &Matcher::Contains { pattern: p, case_sensitive: false },
            t,
        ),
{
    assert(text::occurs_at(t, p@, i) ==> text::seq_contains(t, p@));
    assert(text::occurs_at(text::lowercase(t), text::lowercase(p@), i) ==> text::seq_contains(
        text::lowercase(t),
        text::lowercase(p@),
    ));
}

fn fold(s: &str, case_sensitive: bool) -> (r: String)
    ensures
        r@ == folded(s@, case_sensitive),
{
    if case_sensitive {
        s.to_string()
    } else {
        text::to_lowercase(s)
    }
}

impl Matcher {
    /// Whether the matcher accepts a text.
    pub fn matches(&self, t: &str) -> (r: bool)
        ensures
            r == accepts(self, t@),
    {
        match self {
            Matcher::Wildcard { pattern, case_sensitive } => {
                let p = fold(pattern.as_str(), *case_sensitive);
                let ft = fold(t, *case_sensitive);
                proof {
                    reveal_strlit(".");
                    reveal_strlit("*");
                    reveal_strlit("?");
                }
                let s1 = commands::replace_text(p.as_str(), ".", "\\.");
                let s2 = commands::replace_text(s1.as_str(), "*", ".*");
                let s3 = commands::replace_text(s2.as_str(), "?", ".");
                let mut re = String::from_str("^");
                re.append(s3.as_str());
                re.append("$");
                match compile_regex(re.as_str()) {
                    Ok(c) => regex_is_match(&c, ft.as_str()),
                    Err(_) => false,
                }
            },
            Matcher::Regex(c) => regex_is_match(c, t),
            Matcher::Exact { pattern, case_sensitive } => {
                let a = fold(t, *case_sensitive);
                let b = fold(pattern.as_str(), *case_sensitive);
                text::str_eq(a.as_str(), b.as_str())
            },
            Matcher::Contains { pattern, case_sensitive } => {
                let a = text::chars_of(fold(t, *case_sensitive).as_str());
                let b = text::chars_of(fold(pattern.as_str(), *case_sensitive).as_str());
                text::contains_chars(a.as_slice(), b.as_slice())
            },
        }
    }
}

/// Why a search cannot start.
#[derive(Debug)]
pub enum SearchError {
    /// The regular expression does not compile.
    InvalidPattern(regex::Error),
}

/// The regular expression a regex search compiles: the pattern, marked to
/// ignore case unless case matters.
pub open spec fn regex_source(pattern: Seq<char>, case_sensitive: bool) -> Seq<char> {
    if case_sensitive {
        pattern
    } else {
        "(?i)"@ + pattern
    }
}

/// Whether `s` is a line break character position: the index of the first
/// `\n` in `s`, if any.
pub open spec fn first_newline(s: Seq<char>) -> Option<int>
    decreases s.len(),
{
    if s.len() == 0 {
        None
    } else if s[0] == '\n' {
        Some(0)
    } else {
        match first_newline(s.drop_first()) {
            Some(i) => Some(i + 1),
            None => None,
        }
    }
}

/// A line without the `\r` of a `\r\n` ending.
pub open spec fn strip_cr(l: Seq<char>) -> Seq<char> {
    if l.len() > 0 && l.last() == '\r' {
        l.drop_last()
    } else {
        l
    }
}

/// The lines of a text, as `str::lines` gives them: split at `\n` or `\r\n`,
/// without a last empty line after a final line break.
pub open spec fn lines_of(s: Seq<char>) -> Seq<Seq<char>>
    decreases s.len(),
{
    if s.len() == 0 {
        Seq::empty()
    } else {
        match first_newline(s) {
            Some(i) => if 0 <= i < s.len() {
                seq![strip_cr(s.subrange(0, i))] + lines_of(s.subrange(i + 1, s.len() as int))
            } else {
                Seq::empty()
            },
            None => seq![s],
        }
    }
}

proof fn lemma_first_newline(s: Seq<char>)
    ensures
        first_newline(s) matches Some(i) ==> 0 <= i < s.len() && s[i] == '\n' && forall|j: int|
            0 <= j < i ==> s[j] != '\n',
        first_newline(s) is None ==> forall|j: int| 0 <= j < s.len() ==> s[j] != '\n',
    decreases s.len(),
{
    if s.len() > 0 && s[0] != '\n' {
        lemma_first_newline(s.drop_first());
        assert forall|j: int| 0 < j < s.len() implies s[j] == s.drop_first()[j - 1] by {}
    }
}

/// The matches a matcher finds in the lines of a text, numbered from 1.
pub open spec fn line_matches(m: &Matcher, lines: Seq<Seq<char>>, first: int) -> Seq<(int, Seq<char>)>
    decreases lines.len(),
{
    if lines.len() == 0 {
        Seq::empty()
    } else {
        let rest = line_matches(m, lines.drop_first(), first + 1);
        if accepts(m, lines[0]) {
            seq![(first, lines[0])] + rest
        } else {
            rest
        }
    }
}

/// The view of a match as a numbered line.
pub open spec fn match_view(m: Match) -> (int, Seq<char>) {
    (
        match m.line_number {
            Some(n) => n as int,
            None => -1,
        },
        match m.line_content {
            Some(c) => c@,
            None => Seq::empty(),
        },
    )
}

/// Whether a file passes the filters: its name matches (unless the search
/// looks inside files), its extension is one of those asked for (ignoring
/// case), and its size and time are within bounds.
pub open spec fn passes(
    c: &SearchCriteria,
    m: &Matcher,
    file_name: Option<Seq<char>>,
    extension: Option<Seq<char>>,
    size: u64,
    modified: Option<i128>,
) -> bool {
    &&& (file_name matches Some(n) ==> accepts(m, n) || c.search_in_files)
    &&& (c.file_extensions@.len() > 0 ==> (extension matches Some(e) && exists|i: int|
        0 <= i < c.file_extensions@.len() && text::lowercase(#[trigger] c.file_extensions@[i]@)
            == text::lowercase(e)))
    &&& (c.size_filter matches Some(f) ==> (f.min_size matches Some(lo) ==> size >= lo) && (
    f.max_size matches Some(hi) ==> size <= hi))
    &&& (c.date_filter matches Some(f) ==> (modified matches Some(t) ==> (f.after matches Some(a)
        ==> t >= a) && (f.before matches Some(b) ==> t <= b)))
}

/// A file whose modification time is known and lies outside the date filter
/// (later than its `before` bound, or earlier than its `after` bound), or
/// whose size lies outside the size filter (above its maximum or below its
/// minimum), does not pass, whatever its name and extension.  Nor does a file
/// without an extension where extensions are asked for, nor one whose name
/// the search does not accept when it does not look inside files.
pub proof fn law_out_of_bounds_never_passes(
    c: &SearchCriteria,
    m: &Matcher,
    file_name: Option<Seq<char>>,
    extension: Option<Seq<char>>,
    size: u64,
    modified: Option<i128>,
)
    ensures
        (c.date_filter matches Some(f) && f.before matches Some(b) && modified matches Some(t) && t > b)
            ==> !passes(c, m, file_name, extension, size, modified),
        (c.date_filter matches Some(f) && f.after matches Some(a) && modified matches Some(t) && t < a)
            ==> !passes(c, m, file_name, extension, size, modified),
        (c.size_filter matches Some(f) && f.max_size matches Some(hi) && size > hi) ==> !passes(
            c,
            m,
            file_name,
            extension,
            size,
            modified,
        ),
        (c.size_filter matches Some(f) && f.min_size matches Some(lo) && size < lo) ==> !passes(
            c,
            m,
            file_name,
            extension,
            size,
            modified,
        ),
        c.file_extensions@.len() > 0 && extension is None ==> !passes(
            c,
            m,
            file_name,
            extension,
            size,
            modified,
        ),
        (file_name matches Some(n) && !accepts(m, n) && !c.search_in_files) ==> !passes(
            c,
            m,
            file_name,
            extension,
            size,
            modified,
        ),
{
}

/// A search: its criteria, its matcher, the files found and whether it was
/// cancelled.
pub struct SearchEngine {
    criteria: SearchCriteria,
    pattern_matcher: Matcher,
    results: Vec<SearchResult>,
    cancelled: bool,
}

impl SearchEngine {
    /// The criteria.
    pub closed spec fn criteria(&self) -> &SearchCriteria {
        &self.criteria
    }

    /// The matcher.
    pub closed spec fn matcher(&self) -> &Matcher {
        &self.pattern_matcher
    }

    /// The files found so far.
    pub closed spec fn found(&self) -> Seq<SearchResult> {
        self.results@
    }

    /// Whether the search was cancelled.
    pub closed spec fn is_cancelled_spec(&self) -> bool {
        self.cancelled
    }

    /// A search for the criteria; fails where a regular expression does not
    /// compile.
    pub fn new(criteria: SearchCriteria) -> (r: Result<Self, SearchError>)
        ensures
            r is Err <==> (criteria.search_type == SearchType::Regex && !regex_valid(
                regex_source(criteria.pattern@, criteria.case_sensitive),
            )),
            r matches Ok(e) ==> e.found().len() == 0 && !e.is_cancelled_spec() && e.criteria().pattern@
                == criteria.pattern@ && match e.matcher() {
                Matcher::Wildcard { pattern, case_sensitive } => criteria.search_type
                    == SearchType::Wildcard && pattern@ == criteria.pattern@ && *case_sensitive
                    == criteria.case_sensitive,
                Matcher::Regex(c) => criteria.search_type == SearchType::Regex && c.source() == regex_source(
                    criteria.pattern@,
                    criteria.case_sensitive,
                ),
                Matcher::Exact { pattern, case_sensitive } => criteria.search_type == SearchType::Exact
                    && pattern@ == criteria.pattern@ && *case_sensitive == criteria.case_sensitive,
                Matcher::Contains { pattern, case_sensitive } => criteria.search_type
                    == SearchType::Contains && pattern@ == criteria.pattern@ && *case_sensitive
                    == criteria.case_sensitive,
            },
    {
        let pattern_matcher = match criteria.search_type {
            SearchType::Wildcard => Matcher::Wildcard {
                pattern: criteria.pattern.clone(),
                case_sensitive: criteria.case_sensitive,
            },
            SearchType::Regex => {
                let source = if criteria.case_sensitive {
                    criteria.pattern.clone()
                } else {
                    let mut s = String::from_str("(?i)");
                    s.append(criteria.pattern.as_str());
                    s
                };
                match compile_regex(source.as_str()) {
                    Ok(c) => Matcher::Regex(c),
                    Err(e) => return Err(SearchError::InvalidPattern(e)),
                }
            },
            SearchType::Exact => Matcher::Exact {
                pattern: criteria.pattern.clone(),
                case_sensitive: criteria.case_sensitive,
            },
            SearchType::Contains => Matcher::Contains {
                pattern: criteria.pattern.clone(),
                case_sensitive: criteria.case_sensitive,
            },
        };
        Ok(SearchEngine { criteria, pattern_matcher, results: Vec::new(), cancelled: false })
    }

    /// Whether the search accepts a name or a line.
    pub fn matches_text(&self, t: &str) -> (r: bool)
        ensures
            r == accepts(self.matcher(), t@),
    {
        self.pattern_matcher.matches(t)
    }

    /// Whether a file with the given name, extension, size and time (where
    /// known) passes the filters.
    pub fn matches_file(
        &self,
        file_name: Option<&str>,
        extension: Option<&str>,
        size: u64,
        modified: Option<i128>,
    ) -> (r: bool)
        ensures
            r == passes(
                self.criteria(),
                self.matcher(),
                match file_name {
                    Some(n) => Some(n@),
                    None => None,
                },
                match extension {
                    Some(e) => Some(e@),
                    None => None,
                },
                size,
                modified,
            ),
    {
        if let Some(n) = file_name {
            if !self.pattern_matcher.matches(n) && !self.criteria.search_in_files {
                return false;
            }
        }
        if self.criteria.file_extensions.len() > 0 {
            match extension {
                Some(e) => {
                    let ext = text::to_lowercase(e);
                    let mut found = false;
                    let mut i: usize = 0;
                    while i < self.criteria.file_extensions.len()
                        invariant
                            i <= self.criteria.file_extensions@.len(),
                            ext@ == text::lowercase(e@),
                            found <==> exists|j: int|
                                0 <= j < i && text::lowercase(
                                    #[trigger] self.criteria.file_extensions@[j]@,
                                ) == text::lowercase(e@),
                        decreases self.criteria.file_extensions@.len() - i,
                    {
                        let l = text::to_lowercase(self.criteria.file_extensions[i].as_str());
                        if text::str_eq(l.as_str(), ext.as_str()) {
                            found = true;
                        }
                        i = i + 1;
                    }
                    if !found {
                        return false;
                    }
                },
                None => {
                    return false;
                },
            }
        }
        if let Some(f) = self.criteria.size_filter {
            if let Some(lo) = f.min_size {
                if size < lo {
                    return false;
                }
            }
            if let Some(hi) = f.max_size {
                if size > hi {
                    return false;
                }
            }
        }
        if let Some(f) = self.criteria.date_filter {
            if let Some(t) = modified {
                if let Some(a) = f.after {
                    if t < a {
                        return false;
                    }
                }
                if let Some(b) = f.before {
                    if t > b {
                        return false;
                    }
                }
            }
        }
        true
    }

    /// Adds to a result the lines of a file's text that match, numbered from 1
    /// (nothing where the file could not be read as text).
    pub fn search_in_file(&self, content: Option<&str>, result: &mut SearchResult)
        ensures
            final(result).path == old(result).path,
            final(result).size == old(result).size,
            final(result).modified == old(result).modified,
            content is None ==> final(result).matches@ == old(result).matches@,
            content matches Some(c) ==> final(result).matches@.len() == old(result).matches@.len()
                + line_matches(self.matcher(), lines_of(c@), 1).len() && (forall|i: int|
                0 <= i < old(result).matches@.len() ==> final(result).matches@[i] == old(
                result,
            ).matches@[i]) && (forall|k: int|
                0 <= k < line_matches(self.matcher(), lines_of(c@), 1).len() ==> {
                    let m = #[trigger] final(result).matches@[old(result).matches@.len() + k];
                    match_view(m) == line_matches(self.matcher(), lines_of(c@), 1)[k]
                        && m.byte_offset is None && m.line_number is Some && m.line_content is Some
                }),
    {
        let c = match content {
            Some(c) => c,
            None => return,
        };
        let cs = text::chars_of(c);
        let ghost whole = lines_of(c@);
        let ghost base = result.matches@;
        let mut start: usize = 0;
        let mut count: usize = 0;
        let ghost mut done: Seq<Seq<char>> = Seq::empty();
        assert(cs@.subrange(0, cs@.len() as int) =~= cs@);
        assert(done + lines_of(cs@) =~= lines_of(cs@));
        while start < cs.len()
            invariant
                cs@ == c@,
                start <= cs@.len(),
                count == done.len(),
                count <= start,
                done + lines_of(cs@.subrange(start as int, cs@.len() as int)) == whole,
                whole == lines_of(c@),
                result.path == old(result).path,
                result.size == old(result).size,
                result.modified == old(result).modified,
                result.matches@.len() == base.len() + line_matches(self.matcher(), done, 1).len(),
                base == old(result).matches@,
                forall|i: int| 0 <= i < base.len() ==> result.matches@[i] == base[i],
                forall|k: int|
                    0 <= k < line_matches(self.matcher(), done, 1).len() ==> {
                        let m = #[trigger] result.matches@[base.len() + k];
                        match_view(m) == line_matches(self.matcher(), done, 1)[k] && m.byte_offset is None
                            && m.line_number is Some && m.line_content is Some
                    },
            decreases cs@.len() - start,
        {
            let ghost rest = cs@.subrange(start as int, cs@.len() as int);
            let mut end = start;
            while end < cs.len() && cs[end] != '\n'
                invariant
                    start <= end <= cs@.len(),
                    forall|j: int| start <= j < end ==> cs@[j] != '\n',
                decreases cs@.len() - end,
            {
                end = end + 1;
            }
            proof {
                lemma_first_newline(rest);
            }
            let mut line_end = end;
            if end < cs.len() && line_end > start && cs[line_end - 1] == '\r' {
                line_end = line_end - 1;
            }
            let piece = vstd::slice::slice_subrange(cs.as_slice(), start, line_end);
            let line = text::string_from_chars(piece);
            let ghost lv = line@;
            assert(lines_of(rest) == seq![lv] + lines_of(
                cs@.subrange(if end < cs@.len() { end + 1 } else { cs@.len() as int }, cs@.len() as int),
            )) by {
                if end < cs@.len() {
                    assert(rest[end - start] == '\n');
                    assert(first_newline(rest) == Some((end - start) as int)) by {
                        lemma_first_newline(rest);
                        if let Some(i) = first_newline(rest) {
                            if i < end - start {
                                assert(rest[i] == cs@[start + i]);
                            }
                            if i > end - start {
                                assert(rest[end - start] == cs@[end as int]);
                            }
                        }
                    }
                    assert(rest.subrange(0, end - start) =~= cs@.subrange(start as int, end as int));
                    assert(rest.subrange(end - start + 1, rest.len() as int) =~= cs@.subrange(
                        end + 1,
                        cs@.len() as int,
                    ));
                    assert(strip_cr(cs@.subrange(start as int, end as int)) =~= lv);
                } else {
                    assert(first_newline(rest) is None) by {
                        lemma_first_newline(rest);
                        if let Some(i) = first_newline(rest) {
                            assert(rest[i] == cs@[start + i]);
                        }
                    }
                    assert(rest =~= lv);
                    assert(cs@.subrange(cs@.len() as int, cs@.len() as int) =~= Seq::<char>::empty());
                    assert(seq![lv] + Seq::<Seq<char>>::empty() =~= seq![lv]);
                }
            }
            let ghost old_done = done;
            proof {
                done = done.push(lv);
                lemma_line_matches_push(self.matcher(), old_done, lv, 1);
                assert(old_done + (seq![lv] + lines_of(
                    cs@.subrange(if end < cs@.len() { end + 1 } else { cs@.len() as int }, cs@.len() as int),
                )) =~= done + lines_of(
                    cs@.subrange(if end < cs@.len() { end + 1 } else { cs@.len() as int }, cs@.len() as int),
                ));
            }
            if self.pattern_matcher.matches(line.as_str()) {
                result.matches.push(Match { line_number: Some(count + 1), line_content: Some(line), byte_offset: None });
            }
            count = count + 1;
            start = if end < cs.len() { end + 1 } else { end };
        }
        assert(cs@.subrange(start as int, cs@.len() as int) =~= Seq::<char>::empty());
        assert(done + Seq::<Seq<char>>::empty() =~= done);
    }

    /// Whether a directory at this depth below the start is searched.
    pub fn depth_allowed(&self, depth: usize) -> (r: bool)
        ensures
            r == (self.criteria().max_depth matches Some(d) ==> depth <= d),
    {
        match self.criteria.max_depth {
            Some(d) => depth <= d,
            None => true,
        }
    }

    /// Whether an entry with this name is looked at: hidden (dot) entries only
    /// where the criteria include them.
    pub fn includes_name(&self, name: &str) -> (r: bool)
        ensures
            r == (self.criteria().include_hidden || !text::seq_starts_with(name@, seq!['.'])),
    {
        if self.criteria.include_hidden {
            return true;
        }
        let cs = text::chars_of(name);
        let dot: [char; 1] = ['.'];
        assert(dot@ =~= seq!['.']);
        !text::starts_with_chars(cs.as_slice(), dot.as_slice())
    }

    /// Forgets earlier results and any cancellation, before a search runs.
    pub fn begin(&mut self)
        ensures
            final(self).found().len() == 0,
            !final(self).is_cancelled_spec(),
            final(self).criteria() == old(self).criteria(),
            final(self).matcher() == old(self).matcher(),
    {
        self.results = Vec::new();
        self.cancelled = false;
    }

    /// Records a file found.
    pub fn record(&mut self, result: SearchResult)
        ensures
            final(self).found() == old(self).found().push(result),
            final(self).is_cancelled_spec() == old(self).is_cancelled_spec(),
            final(self).criteria() == old(self).criteria(),
            final(self).matcher() == old(self).matcher(),
    {
        self.results.push(result);
    }

    /// Whether the search was cancelled.
    pub fn is_cancelled(&self) -> (r: bool)
        ensures
            r == self.is_cancelled_spec(),
    {
        self.cancelled
    }

    /// Cancels the search.
    pub fn cancel(&mut self)
        ensures
            final(self).is_cancelled_spec(),
            final(self).found() == old(self).found(),
            final(self).criteria() == old(self).criteria(),
            final(self).matcher() == old(self).matcher(),
    {
        self.cancelled = true;
    }

    /// The files found so far.
    pub fn get_results(&self) -> (r: &[SearchResult])
        ensures
            r@ == self.found(),
    {
        self.results.as_slice()
    }
}

proof fn lemma_line_matches_push(m: &Matcher, done: Seq<Seq<char>>, l: Seq<char>, first: int)
    ensures
        line_matches(m, done.push(l), first) == line_matches(m, done, first) + (if accepts(m, l) {
            seq![(first + done.len(), l)]
        } else {
            Seq::empty()
        }),
    decreases done.len(),
{
    if done.len() == 0 {
        assert(done.push(l).drop_first() =~= Seq::<Seq<char>>::empty());
        assert(done.push(l)[0] == l);
        assert(line_matches(m, Seq::<Seq<char>>::empty(), first + 1) =~= Seq::<(int, Seq<char>)>::empty());
        assert(line_matches(m, done, first) =~= Seq::<(int, Seq<char>)>::empty());
        assert(line_matches(m, done.push(l), first) =~= line_matches(m, done, first) + (if accepts(m, l) {
            seq![(first + done.len(), l)]
        } else {
            Seq::empty()
        }));
    } else {
        assert(done.push(l).drop_first() =~= done.drop_first().push(l));
        assert(done.push(l)[0] == done[0]);
        lemma_line_matches_push(m, done.drop_first(), l, first + 1);
        let head: Seq<(int, Seq<char>)> = if accepts(m, done[0]) { seq![(first, done[0])] } else { Seq::empty() };
        let tail: Seq<(int, Seq<char>)> = if accepts(m, l) { seq![(first + done.len(), l)] } else { Seq::empty() };
        assert(line_matches(m, done, first) =~= head + line_matches(m, done.drop_first(), first + 1));
        assert(line_matches(m, done.push(l), first) =~= head + line_matches(m, done.drop_first().push(l), first + 1));
        assert(head + (line_matches(m, done.drop_first(), first + 1) + tail) =~= (head + line_matches(
            m,
            done.drop_first(),
            first + 1,
        )) + tail);
        assert(line_matches(m, done.push(l), first) =~= line_matches(m, done, first) + (if accepts(m, l) {
            seq![(first + done.len(), l)]
        } else {
            Seq::empty()
        }));
    }
}

proof fn lemma_lines_step(cs: Seq<char>, start: int, end: int)
    requires
        0 <= start < cs.len(),
        start <= end <= cs.len(),
        forall|j: int| start <= j < end ==> cs[j] != '\n',
        end < cs.len() ==> cs[end] == '\n',
    ensures
        lines_of(cs.subrange(start, cs.len() as int)).len() == 1 + lines_of(
            cs.subrange(if end < cs.len() { end + 1 } else { cs.len() as int }, cs.len() as int),
        ).len(),
{
    let rest = cs.subrange(start, cs.len() as int);
    lemma_first_newline(rest);
    if end < cs.len() {
        assert(rest[end - start] == '\n');
        if let Some(i) = first_newline(rest) {
            if i < end - start {
                assert(rest[i] == cs[start + i]);
            }
            if i > end - start {
                assert(rest[end - start] == cs[end]);
            }
        }
        assert(first_newline(rest) == Some(end - start));
        assert(rest.subrange(end - start + 1, rest.len() as int) =~= cs.subrange(end + 1, cs.len() as int));
    } else {
        if let Some(i) = first_newline(rest) {
            assert(rest[i] == cs[start + i]);
        }
        assert(first_newline(rest) is None);
        assert(cs.subrange(cs.len() as int, cs.len() as int) =~= Seq::<char>::empty());
    }
}

/// The number of lines of a text, as `str::lines` counts them.
pub fn line_count(s: &str) -> (r: usize)
    ensures
        r == lines_of(s@).len(),
{
    let cs = text::chars_of(s);
    let mut start: usize = 0;
    let mut count: usize = 0;
    assert(cs@.subrange(0, cs@.len() as int) =~= cs@);
    while start < cs.len()
        invariant
            cs@ == s@,
            start <= cs@.len(),
            count <= start,
            count + lines_of(cs@.subrange(start as int, cs@.len() as int)).len() == lines_of(s@).len(),
        decreases cs@.len() - start,
    {
        let mut end = start;
        while end < cs.len() && cs[end] != '\n'
            invariant
                start <= end <= cs@.len(),
                forall|j: int| start <= j < end ==> cs@[j] != '\n',
            decreases cs@.len() - end,
        {
            end = end + 1;
        }
        proof {
            lemma_lines_step(cs@, start as int, end as int);
        }
        count = count + 1;
        start = if end < cs.len() { end + 1 } else { end };
    }
    assert(cs@.subrange(start as int, cs@.len() as int) =~= Seq::<char>::empty());
    count
}

} // verus!
