use cortex::git::{abbrev_ref_name, current_branch_name, detached_label, get_git_info, parse_ahead_behind, trim};

#[test]
fn branch_names() {
    assert_eq!(current_branch_name("main\n"), Some("main".to_string()));
    assert_eq!(current_branch_name(" \n"), None);
    assert_eq!(abbrev_ref_name("HEAD\n"), None);
    assert_eq!(abbrev_ref_name("feature/x\n"), Some("feature/x".to_string()));
    assert_eq!(detached_label("a1b2c3d4e5f6\n"), Some("(detached: a1b2c3d)".to_string()));
    assert_eq!(detached_label("abc"), Some("(detached: abc)".to_string()));
    assert_eq!(detached_label("\n"), None);
}

#[test]
fn ahead_behind_counts() {
    assert_eq!(parse_ahead_behind("3\t5\n"), (3, 5));
    assert_eq!(parse_ahead_behind("x\t5"), (0, 5));
    assert_eq!(parse_ahead_behind("1\t2\t3"), (0, 0));
    assert_eq!(parse_ahead_behind(""), (0, 0));
}

#[test]
fn trimming_and_info() {
    assert_eq!(trim("\t a b \u{3000}\n"), "a b");
    assert_eq!(trim("   "), "");
    let g = get_git_info(Some("main".to_string()), true, (1, 2)).unwrap();
    assert_eq!((g.branch.as_str(), g.is_dirty, g.ahead, g.behind), ("main", true, 1, 2));
    assert!(get_git_info(None, false, (0, 0)).is_none());
}

fn out(ran: bool, success: bool, stdout: &str) -> cortex::git::GitOutput {
    cortex::git::GitOutput { ran, success, stdout: stdout.to_string() }
}

fn args(step: &cortex::git::GitStep) -> Vec<String> {
    match step {
        cortex::git::GitStep::Run(a) => a.clone(),
        cortex::git::GitStep::Done(_) => panic!("finished early"),
    }
}

#[test]
fn git_probe_follows_the_branch_fallbacks() {
    let (mut p, s) = cortex::git::GitProbe::start();
    assert_eq!(args(&s), vec!["rev-parse", "--git-dir"]);
    let s = p.step(out(true, true, ".git\n"));
    assert_eq!(args(&s), vec!["branch", "--show-current"]);
    let s = p.step(out(true, true, "\n"));
    assert_eq!(args(&s), vec!["rev-parse", "--abbrev-ref", "HEAD"]);
    let s = p.step(out(true, true, "HEAD\n"));
    assert_eq!(args(&s), vec!["rev-parse", "--short", "HEAD"]);
    let s = p.step(out(true, true, "1a2b3c4d5e\n"));
    assert_eq!(args(&s), vec!["status", "--porcelain"]);
    let s = p.step(out(true, true, " M a.rs\n"));
    assert_eq!(args(&s), vec!["rev-list", "--left-right", "--count", "HEAD...@{upstream}"]);
    match p.step(out(true, false, "")) {
        cortex::git::GitStep::Done(Some(g)) => {
            assert_eq!(g.branch, "(detached: 1a2b3c4)");
            assert!(g.is_dirty);
            assert_eq!((g.ahead, g.behind), (0, 0));
        }
        other => panic!("unexpected {:?}", other),
    }
}

#[test]
fn git_probe_outside_a_repository_or_without_git() {
    let (mut p, _) = cortex::git::GitProbe::start();
    assert!(matches!(p.step(out(true, false, "")), cortex::git::GitStep::Done(None)));
    let (mut p, _) = cortex::git::GitProbe::start();
    p.step(out(true, true, ".git"));
    assert!(matches!(p.step(out(false, false, "")), cortex::git::GitStep::Done(None)));
}

#[test]
fn git_probe_with_a_branch_and_counts() {
    let (mut p, _) = cortex::git::GitProbe::start();
    p.step(out(true, true, ".git"));
    p.step(out(true, true, "main\n"));
    p.step(out(true, true, ""));
    match p.step(out(true, true, "2\t5\n")) {
        cortex::git::GitStep::Done(Some(g)) => {
            assert_eq!(g.branch, "main");
            assert!(!g.is_dirty);
            assert_eq!((g.ahead, g.behind), (2, 5));
        }
        other => panic!("unexpected {:?}", other),
    }
}
