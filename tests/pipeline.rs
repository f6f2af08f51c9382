use gerris::github;
use gerris::migration::{Action, Event, Migration, Phase};
use gerris::upstream::{
    self, BuildError, Candidate, LogEntry, ResolveError, RevEntry, MARKER,
};

fn strs(v: &[&str]) -> Vec<String> {
    v.iter().map(|s| s.to_string()).collect()
}

fn entry(id: &str, title: &str) -> LogEntry {
    LogEntry { id: id.to_string(), title: title.to_string() }
}

fn rev(id: &str, parents: usize, files: &[&str]) -> RevEntry {
    RevEntry { id: id.to_string(), parents, files: strs(files) }
}

fn candidate(id: &str) -> Candidate {
    Candidate { id: id.to_string(), cross_cutting: false }
}

#[test]
fn escape_basic_regex_metacharacters() {
    assert_eq!(upstream::escape_regex_characters("plain title"), "plain title");
    assert_eq!(upstream::escape_regex_characters("a*b"), "a\\*b");
    assert_eq!(
        upstream::escape_regex_characters("x.y [z] ^$ \\"),
        "x\\.y \\[z\\] \\^\\$ \\\\"
    );
    assert_eq!(upstream::escape_regex_characters(""), "");
    assert_eq!(upstream::escape_regex_characters("a+b?"), "a+b?");
}

#[test]
fn prefix_added_when_missing() {
    assert_eq!(
        upstream::maybe_prefix("Fix parsing\n\nBody text", MARKER),
        Some("gccrs: Fix parsing\n\nBody text".to_string())
    );
}

#[test]
fn prefix_skipped_when_marked() {
    assert_eq!(upstream::maybe_prefix("gccrs: Fix parsing", MARKER), None);
    let once = upstream::maybe_prefix("Fix", MARKER).unwrap();
    assert_eq!(upstream::maybe_prefix(&once, MARKER), None);
}

#[test]
fn test_verdict_reads_output() {
    assert_eq!(upstream::judge_tests(true, "# of expected passes 10"), None);
    assert_eq!(
        upstream::judge_tests(true, "# of unexpected failures 1"),
        Some(BuildError::Tests)
    );
    assert_eq!(
        upstream::judge_tests(true, "# of unresolved testcases 2"),
        Some(BuildError::Tests)
    );
    assert_eq!(upstream::judge_tests(false, ""), Some(BuildError::Tests));
    assert_eq!(upstream::judge_tests(true, ""), None);
}

#[test]
fn resolve_finds_newest_marked_and_its_source_commit() {
    let up = strs(&["Unrelated", "gccrs: Fix macro parsing", "gccrs: Older"]);
    let src = vec![
        entry("c3", "Newer work"),
        entry("c2", "Fix macro parsing"),
        entry("c1", "Older"),
    ];
    let c = upstream::resolve(&up, &src, MARKER).ok().unwrap();
    assert_eq!(c.title, "Fix macro parsing");
    assert_eq!(c.id, "c2");
    assert_eq!(c.index, 1);
}

#[test]
fn resolve_without_marked_commit() {
    let up = strs(&["Unrelated", "Other"]);
    let src = vec![entry("c1", "Other")];
    assert_eq!(upstream::resolve(&up, &src, MARKER).err(), Some(ResolveError::NoMarkedCommit));
    assert_eq!(upstream::resolve(&vec![], &src, MARKER).err(), Some(ResolveError::NoMarkedCommit));
}

#[test]
fn resolve_title_missing_downstream() {
    let up = strs(&["gccrs: Reworded title"]);
    let src = vec![entry("c1", "Original title"), entry("c0", "Reworded title, amended")];
    assert_eq!(upstream::resolve(&up, &src, MARKER).err(), Some(ResolveError::TitleNotFound));
}

#[test]
fn resolve_title_with_metacharacters() {
    let up = strs(&["gccrs: Handle *ptr and a.b [x]"]);
    let src = vec![entry("c2", "Handle Xptr and aXb X"), entry("c1", "Handle *ptr and a.b [x]")];
    let c = upstream::resolve(&up, &src, MARKER).ok().unwrap();
    assert_eq!(c.id, "c1");
    assert_eq!(c.title, "Handle *ptr and a.b [x]");
}

#[test]
fn resolved_title_exists_in_source() {
    let up = strs(&["gccrs: B", "gccrs: A"]);
    let src = vec![entry("x", "C"), entry("y", "B"), entry("z", "A")];
    let c = upstream::resolve(&up, &src, MARKER).ok().unwrap();
    assert!(src.iter().any(|e| e.title == c.title));
    assert_eq!(src[c.index].title, c.title);
}

#[test]
fn classify_flags_cross_cutting_and_keeps_order() {
    let scope = upstream::default_scope();
    let entries = vec![
        rev("A", 1, &["gcc/rust/parse/rust-parse.cc", "gcc/testsuite/rust/compile/a.rs"]),
        rev("B", 1, &["gcc/rust/ast/rust-ast.h", "gcc/expr.cc"]),
    ];
    let c = upstream::classify(&entries, &scope);
    assert_eq!(c.len(), 2);
    assert_eq!(c[0].id, "A");
    assert!(!c[0].cross_cutting);
    assert_eq!(c[1].id, "B");
    assert!(c[1].cross_cutting);
}

#[test]
fn classify_drops_merges() {
    let scope = strs(&["gcc/rust/"]);
    let entries = vec![
        rev("A", 1, &["gcc/rust/a.cc"]),
        rev("M", 2, &[]),
        rev("B", 0, &["libgrust/x"]),
        rev("N", 3, &["gcc/rust/b.cc"]),
    ];
    let c = upstream::classify(&entries, &scope);
    let ids: Vec<&str> = c.iter().map(|c| c.id.as_str()).collect();
    assert_eq!(ids, vec!["A", "B"]);
    assert!(!c[0].cross_cutting);
    assert!(c[1].cross_cutting);
    assert!(upstream::classify(&vec![], &scope).is_empty());
}

#[test]
fn classify_empty_file_set_is_in_scope() {
    let c = upstream::classify(&vec![rev("E", 1, &[])], &vec![]);
    assert!(!c[0].cross_cutting);
}

#[test]
fn rerun_after_success_has_nothing_to_forward() {
    // Before: upstream last forwarded "A"; source has B and C after it.
    let src = vec![entry("c", "C"), entry("b", "B"), entry("a", "A")];
    let up = strs(&["gccrs: A"]);
    let first = upstream::resolve(&up, &src, MARKER).ok().unwrap();
    assert_eq!(first.index, 2);
    // The run forwards B then C, each rewritten.
    let mut after = Vec::new();
    for e in src[..first.index].iter() {
        after.push(upstream::maybe_prefix(&e.title, MARKER).unwrap());
    }
    after.extend(up);
    let second = upstream::resolve(&after, &src, MARKER).ok().unwrap();
    assert_eq!(second.index, 0);
    assert_eq!(second.id, "c");
    // Nothing is newer than the new correspondence point.
    let listing = upstream::parse_rev_list("").unwrap();
    assert!(listing.is_empty());
    assert!(upstream::classify(&vec![], &upstream::default_scope()).is_empty());
}

#[test]
fn glyph_mapping_is_total() {
    assert_eq!(github::glyphs(&None), ("✅", "✅"));
    assert_eq!(github::glyphs(&Some(BuildError::Build)), ("❌", "❌"));
    assert_eq!(github::glyphs(&Some(BuildError::Tests)), ("✅", "❌"));
}

#[test]
fn body_lists_each_commit() {
    let body = github::prepare_body(
        "gccrs: Last".to_string(),
        vec![
            ("aaa".to_string(), None),
            ("bbb".to_string(), Some(BuildError::Build)),
            ("ccc".to_string(), Some(BuildError::Tests)),
        ],
    );
    assert!(body.starts_with(github::INTRO));
    assert!(body.contains("`gccrs: Last`"));
    assert!(body.contains(
        "|Commit|Build|Test|\n|---|:-:|:-:|\n|aaa|✅|✅|\n|bbb|❌|❌|\n|ccc|✅|❌|\n\n🐙\n"
    ));
}

#[test]
fn body_without_commits() {
    let body = github::prepare_body("t".to_string(), vec![]);
    let expected = format!("{}t{}{}{}", github::INTRO, github::MIDDLE, github::HEADER, github::OUTRO);
    assert_eq!(body, expected);
}

/// Drives one candidate through replay, build, tests and rewrite.
fn clean_candidate(m: &mut Migration, msg: &str) -> Action {
    assert!(matches!(m.step(Event::Replayed), Action::Build));
    assert!(matches!(m.step(Event::Built), Action::Test));
    assert!(matches!(
        m.step(Event::Tested { passed: true, output: "all good".to_string() }),
        Action::ReadMessage
    ));
    match m.step(Event::Message(msg.to_string())) {
        Action::Amend(n) => {
            assert_eq!(n, format!("gccrs: {msg}"));
            m.step(Event::Amended)
        }
        other => other,
    }
}

#[test]
fn conflict_on_second_candidate_aborts_with_one_row() {
    let mut m = Migration::new(vec![candidate("one"), candidate("two"), candidate("three")], MARKER);
    match m.step(Event::Start) {
        Action::CherryPick(id) => assert_eq!(id, "one"),
        _ => panic!("expected a cherry-pick"),
    }
    match clean_candidate(&mut m, "First") {
        Action::CherryPick(id) => assert_eq!(id, "two"),
        _ => panic!("expected a cherry-pick"),
    }
    assert!(matches!(m.step(Event::Conflicted), Action::Abort));
    assert!(m.aborted());
    assert_eq!(m.outcomes, vec![("one".to_string(), None)]);
    let body = github::prepare_body("gccrs: X".to_string(), m.outcomes.clone());
    assert_eq!(body.matches("\n|one|").count(), 1);
    assert!(!body.contains("two"));
    assert!(matches!(m.step(Event::Replayed), Action::Abort));
}

#[test]
fn build_failure_is_recorded_and_run_continues() {
    let mut m = Migration::new(vec![candidate("bad"), candidate("good")], MARKER);
    assert!(matches!(m.step(Event::Start), Action::CherryPick(_)));
    assert!(matches!(m.step(Event::Replayed), Action::Build));
    assert!(matches!(m.step(Event::BuildFailed), Action::ReadMessage));
    assert!(matches!(m.step(Event::Message("Broken".to_string())), Action::Amend(_)));
    match m.step(Event::Amended) {
        Action::CherryPick(id) => assert_eq!(id, "good"),
        _ => panic!("expected the next candidate"),
    }
    assert_eq!(m.outcomes, vec![("bad".to_string(), Some(BuildError::Build))]);
    assert!(matches!(clean_candidate(&mut m, "gccrs: Fine"), Action::Finish));
    assert_eq!(m.phase, Phase::Done);
    let body = github::prepare_body("t".to_string(), m.outcomes.clone());
    assert!(body.contains("\n|bad|❌|❌|"));
    assert!(body.contains("\n|good|✅|✅|"));
}

#[test]
fn test_failure_from_output_is_recorded() {
    let mut m = Migration::new(vec![candidate("c")], MARKER);
    m.step(Event::Start);
    m.step(Event::Replayed);
    m.step(Event::Built);
    m.step(Event::Tested { passed: true, output: "# of unexpected failures 3".to_string() });
    assert!(matches!(m.step(Event::Message("gccrs: pre-tagged".to_string())), Action::Finish));
    assert_eq!(m.outcomes, vec![("c".to_string(), Some(BuildError::Tests))]);
}

#[test]
fn empty_run_finishes_at_once() {
    let mut m = Migration::new(vec![], MARKER);
    assert!(matches!(m.step(Event::Start), Action::Finish));
    assert!(m.outcomes.is_empty());
    assert!(matches!(m.step(Event::Start), Action::Finish));
}

#[test]
fn event_out_of_turn_aborts() {
    let mut m = Migration::new(vec![candidate("c")], MARKER);
    assert!(matches!(m.step(Event::Built), Action::Abort));
    assert_eq!(m.phase, Phase::Aborted);
}

#[test]
fn log_entries_pair_lines() {
    let es = upstream::log_entries("a1\nb2\n", "Title A\nTitle B\n").unwrap();
    assert_eq!(es.len(), 2);
    assert_eq!(es[1].id, "b2");
    assert_eq!(es[1].title, "Title B");
    assert!(upstream::log_entries("a1\nb2", "only one").is_none());
    assert!(upstream::log_entries("", "").unwrap().is_empty());
}

#[test]
fn rev_list_lines_with_parents() {
    let v = upstream::parse_rev_list("aaa ppp\nmmm p1 p2\nroot\n").unwrap();
    assert_eq!(
        v,
        vec![("aaa".to_string(), 1), ("mmm".to_string(), 2), ("root".to_string(), 0)]
    );
    assert!(upstream::parse_rev_list(" leading space").is_none());
    assert_eq!(upstream::parse_rev_line("abc def"), Some(("abc".to_string(), 1)));
}

#[test]
fn report_flags_cross_cutting_commits() {
    let candidates = vec![
        Candidate { id: "A".to_string(), cross_cutting: false },
        Candidate { id: "B".to_string(), cross_cutting: true },
    ];
    let outcomes = vec![("A".to_string(), None), ("B".to_string(), None)];
    let report = github::prepare_report("t".to_string(), outcomes.clone(), &candidates);
    let body = github::prepare_body("t".to_string(), outcomes.clone());
    assert!(report.contains(github::CAUTION));
    assert!(report.contains("\n- B"));
    assert!(!report.contains("\n- A"));
    assert!(report.ends_with(github::OUTRO));
    assert_ne!(report, body);
    let quiet = github::prepare_report("t".to_string(), outcomes, &vec![candidate("A")]);
    assert_eq!(quiet, body);
}
