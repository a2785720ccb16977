use cortex::search::{line_count, DateFilter, SearchCriteria, SearchEngine, SearchResult, SearchType, SizeFilter};

fn criteria(pattern: &str, search_type: SearchType, case_sensitive: bool) -> SearchCriteria {
    SearchCriteria {
        pattern: pattern.to_string(),
        search_type,
        case_sensitive,
        search_in_files: false,
        include_hidden: false,
        include_subdirs: true,
        max_depth: None,
        file_extensions: Vec::new(),
        size_filter: None,
        date_filter: None,
    }
}

#[test]
fn wildcard_matches_whole_name() {
    let e = SearchEngine::new(criteria("*.TXT", SearchType::Wildcard, false)).unwrap();
    assert!(e.matches_text("notes.txt"));
    assert!(!e.matches_text("notes.txt.bak"));
    assert!(!e.matches_text("notesXtxt"));
    let q = SearchEngine::new(criteria("file?.rs", SearchType::Wildcard, true)).unwrap();
    assert!(q.matches_text("file1.rs"));
    assert!(!q.matches_text("File1.rs"));
}

#[test]
fn exact_and_contains() {
    let e = SearchEngine::new(criteria("Readme", SearchType::Exact, false)).unwrap();
    assert!(e.matches_text("README"));
    assert!(!e.matches_text("README.md"));
    let c = SearchEngine::new(criteria("lib", SearchType::Contains, true)).unwrap();
    assert!(c.matches_text("mylib.rs"));
    assert!(!c.matches_text("myLib.rs"));
}

#[test]
fn regex_search_and_invalid_pattern() {
    let r = SearchEngine::new(criteria("^a.*z$", SearchType::Regex, false)).unwrap();
    assert!(r.matches_text("ABCZ"));
    assert!(!r.matches_text("xabcz"));
    assert!(SearchEngine::new(criteria("(unclosed", SearchType::Regex, true)).is_err());
}

#[test]
fn file_filters() {
    let mut c = criteria("*", SearchType::Wildcard, false);
    c.file_extensions = vec!["RS".to_string()];
    c.size_filter = Some(SizeFilter { min_size: Some(10), max_size: Some(100) });
    c.date_filter = Some(DateFilter { after: Some(1000), before: None });
    let e = SearchEngine::new(c).unwrap();
    assert!(e.matches_file(Some("main.rs"), Some("rs"), 50, Some(2000)));
    assert!(!e.matches_file(Some("main.py"), Some("py"), 50, Some(2000)));
    assert!(!e.matches_file(Some("Makefile"), None, 50, Some(2000)));
    assert!(!e.matches_file(Some("main.rs"), Some("rs"), 5, Some(2000)));
    assert!(!e.matches_file(Some("main.rs"), Some("rs"), 500, Some(2000)));
    assert!(!e.matches_file(Some("main.rs"), Some("rs"), 50, Some(10)));
    assert!(e.matches_file(Some("main.rs"), Some("rs"), 50, None));
}

#[test]
fn name_must_match_unless_searching_contents() {
    let mut c = criteria("todo", SearchType::Contains, false);
    let e = SearchEngine::new(criteria("todo", SearchType::Contains, false)).unwrap();
    assert!(!e.matches_file(Some("main.rs"), Some("rs"), 1, None));
    c.search_in_files = true;
    let f = SearchEngine::new(c).unwrap();
    assert!(f.matches_file(Some("main.rs"), Some("rs"), 1, None));
}

#[test]
fn lines_in_file() {
    let e = SearchEngine::new(criteria("todo", SearchType::Contains, false)).unwrap();
    let mut result = SearchResult { path: "/x".to_string(), size: 0, modified: 0, matches: Vec::new() };
    e.search_in_file(Some("first\nTODO: fix\r\nnothing\n\nlast todo"), &mut result);
    assert_eq!(result.matches.len(), 2);
    assert_eq!(result.matches[0].line_number, Some(2));
    assert_eq!(result.matches[0].line_content.as_deref(), Some("TODO: fix"));
    assert_eq!(result.matches[1].line_number, Some(5));
    assert_eq!(result.matches[1].byte_offset, None);
    e.search_in_file(None, &mut result);
    assert_eq!(result.matches.len(), 2);
}

#[test]
fn counting_lines() {
    assert_eq!(line_count(""), 0);
    assert_eq!(line_count("a"), 1);
    assert_eq!(line_count("a\n"), 1);
    assert_eq!(line_count("a\n\nb"), 3);
    assert_eq!(line_count("\n"), 1);
    assert_eq!("a\n\nb\r\n".lines().count(), line_count("a\n\nb\r\n"));
}

#[test]
fn depth_hidden_results_cancel() {
    let mut c = criteria("*", SearchType::Wildcard, false);
    c.max_depth = Some(2);
    let mut e = SearchEngine::new(c).unwrap();
    assert!(e.depth_allowed(2));
    assert!(!e.depth_allowed(3));
    assert!(!e.includes_name(".git"));
    assert!(e.includes_name("src"));
    e.record(SearchResult { path: "/a".to_string(), size: 1, modified: 0, matches: Vec::new() });
    assert_eq!(e.get_results().len(), 1);
    e.cancel();
    assert!(e.is_cancelled());
    e.begin();
    assert!(!e.is_cancelled());
    assert_eq!(e.get_results().len(), 0);
}
