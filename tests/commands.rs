use gerris::git::{self, Branch, Commit, Format, Remote, StartingPoint};
use gerris::make;
use gerris::upstream;

fn strs(v: &[&str]) -> Vec<String> {
    v.iter().map(|s| s.to_string()).collect()
}

#[test]
fn log_args_in_order() {
    let args = git::log()
        .amount(1)
        .grep("gccrs: ")
        .branch(Branch("gcc/trunk"))
        .format(Format::Title)
        .args();
    assert_eq!(args, strs(&["log", "-1", "--grep", "gccrs: ", "--format=%s", "gcc/trunk"]));
}

#[test]
fn log_args_bare_and_large_amount() {
    assert_eq!(git::log().args(), strs(&["log"]));
    assert_eq!(git::log().amount(120).args(), strs(&["log", "-120"]));
    assert_eq!(git::log().format(Format::Body).args(), strs(&["log", "--format=%B"]));
    assert_eq!(git::log().format(Format::Hash).args(), strs(&["log", "--format=%h"]));
}

#[test]
fn format_placeholders() {
    assert_eq!(Format::Hash.as_str(), "%h");
    assert_eq!(Format::Title.as_str(), "%s");
    assert_eq!(Format::Body.as_str(), "%B");
}

#[test]
fn rev_list_args_in_order() {
    let args = git::rev_list("abc123", "upstream/master")
        .no_merges()
        .reverse()
        .exclude(Branch("gcc/trunk"))
        .dir("gcc/rust")
        .dir("gcc/testsuite/rust")
        .dir("libgrust")
        .args();
    assert_eq!(
        args,
        strs(&[
            "rev-list",
            "abc123..upstream/master",
            "--reverse",
            "--no-merges",
            "^gcc/trunk",
            "--",
            "gcc/rust",
            "gcc/testsuite/rust",
            "libgrust",
        ])
    );
}

#[test]
fn rev_list_dirs_replace() {
    let args = git::rev_list("a", "b").dir("x").dirs(strs(&["y", "z"])).args();
    assert_eq!(args, strs(&["rev-list", "a..b", "--", "y", "z"]));
    assert_eq!(git::rev_list("a", "b").args(), strs(&["rev-list", "a..b"]));
}

#[test]
fn candidates_query_asks_for_parents() {
    let args = upstream::candidates_query("abc", "upstream/master", "gcc/trunk").args();
    assert_eq!(
        args,
        strs(&["rev-list", "abc..upstream/master", "--reverse", "--parents", "^gcc/trunk"])
    );
}

#[test]
fn branch_args() {
    let args = git::branch()
        .name("prepare-x")
        .starting_point(StartingPoint::Branch("gcc/trunk"))
        .args();
    assert_eq!(args, strs(&["branch", "prepare-x", "gcc/trunk"]));
    let args = git::branch().starting_point(StartingPoint::Commit("abc")).args();
    assert_eq!(args, strs(&["branch", "abc"]));
    assert_eq!(git::branch().args(), strs(&["branch"]));
}

#[test]
fn commit_args() {
    assert_eq!(
        git::commit().amend().message("gccrs: hi").args(),
        strs(&["commit", "--amend", "-m", "gccrs: hi"])
    );
    assert_eq!(git::commit().args(), strs(&["commit"]));
}

#[test]
fn small_command_args() {
    assert_eq!(git::fetch().remote("gcc").args(), strs(&["fetch", "gcc"]));
    assert_eq!(git::fetch().args(), strs(&["fetch"]));
    assert_eq!(git::switch("work").args(), strs(&["switch", "work"]));
    assert_eq!(git::cherry_pick(Commit("abc")).args(), strs(&["cherry-pick", "abc"]));
    assert_eq!(
        git::diff_tree(Commit("abc")).args(),
        strs(&["diff-tree", "--no-commit-id", "--name-only", "-r", "abc"])
    );
}

#[test]
fn push_args() {
    let args = git::push().upstream(Remote("origin")).branch(Branch("HEAD")).args();
    assert_eq!(args, strs(&["push", "-u", "origin", "HEAD"]));
    let args = git::push().branch(Branch("a")).branch(Branch("b")).args();
    assert_eq!(args, strs(&["push", "a", "b"]));
}

#[test]
fn make_args() {
    let args = make::new().directory("build").jobs(14).load(6).recipe("check-rust").args();
    assert_eq!(args, strs(&["-C", "build", "-j14", "-l6", "check-rust"]));
    assert_eq!(make::new().args(), Vec::<String>::new());
    assert_eq!(make::new().jobs(0).args(), strs(&["-j0"]));
}

#[test]
fn build_and_test_commands() {
    assert_eq!(upstream::build_command().args(), strs(&["-C", "build-gerris", "-j14", "-l6"]));
    assert_eq!(
        upstream::test_command().args(),
        strs(&["-C", "build-gerris", "-j14", "-l6", "check-rust"])
    );
}

#[test]
fn queries_escape_their_pattern() {
    assert_eq!(
        upstream::titles_query("Fix a.b*", "upstream/master").args(),
        strs(&["log", "--grep", "Fix a\\.b\\*", "--format=%s", "upstream/master"])
    );
    assert_eq!(
        upstream::hashes_query("x", "upstream/master").args(),
        strs(&["log", "--grep", "x", "--format=%h", "upstream/master"])
    );
    assert_eq!(upstream::message_query().args(), strs(&["log", "-1", "--format=%B"]));
}
