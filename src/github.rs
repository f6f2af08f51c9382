//! The body of the pull request: the last forwarded title and one table row
//! per candidate with its build and test status.

use vstd::prelude::*;

use crate::text::{chars_of, push_str, string_of};
use crate::upstream::{BuildError, Candidate};

verus! {

/// The glyph of a gate that failed.
pub const FAILURE: &'static str = "❌";

/// The glyph of a gate that passed.
pub const SUCCESS: &'static str = "✅";

/// The table's header.
pub const HEADER: &'static str = "|Commit|Build|Test|\n|---|:-:|:-:|";

/// The text before the last forwarded title.
pub const INTRO: &'static str = "\nThis pull-request aims to help upstreaming commits to the GCC repository by formatting them and checking that they can be cherry-picked/rebased properly.\n\nThe last commit upstreamed was:\n\n`";

/// The text between the last forwarded title and the table.
pub const MIDDLE: &'static str = "`\n\nThe list of commits prepared is as follows:\n\n";

/// The text after the table.
pub const OUTRO: &'static str = "\n\n🐙\n";

/// The text that introduces the cross-cutting commits.
pub const CAUTION: &'static str = "\n\nCareful: these commits touch on common GCC directories - they might need to be skipped due to the current GCC stage:\n";

/// One line per cross-cutting candidate, in order.
pub open spec fn flagged(candidates: Seq<Candidate>) -> Seq<char>
    decreases candidates.len(),
{
    if candidates.len() == 0 {
        seq![]
    } else if candidates.last().cross_cutting {
        flagged(candidates.drop_last()) + "\n- "@ + candidates.last().id@
    } else {
        flagged(candidates.drop_last())
    }
}

/// The caution section: empty when no candidate is cross-cutting.
pub open spec fn caution(candidates: Seq<Candidate>) -> Seq<char> {
    if flagged(candidates).len() == 0 {
        seq![]
    } else {
        CAUTION@ + flagged(candidates)
    }
}

/// The build and test glyphs of a result. A failed build fails both gates,
/// since the tests could not run.
pub open spec fn glyph_pair(result: Option<BuildError>) -> (Seq<char>, Seq<char>) {
    match result {
        Some(BuildError::Build) => (FAILURE@, FAILURE@),
        Some(BuildError::Tests) => (SUCCESS@, FAILURE@),
        None => (SUCCESS@, SUCCESS@),
    }
}

/// The table row of one candidate.
pub open spec fn row(id: Seq<char>, result: Option<BuildError>) -> Seq<char> {
    "\n|"@ + id + "|"@ + glyph_pair(result).0 + "|"@ + glyph_pair(result).1 + "|"@
}

/// The table: the header, then one row per candidate, in order.
pub open spec fn table(rows: Seq<(String, Option<BuildError>)>) -> Seq<char>
    decreases rows.len(),
{
    if rows.len() == 0 {
        HEADER@
    } else {
        table(rows.drop_last()) + row(rows.last().0@, rows.last().1)
    }
}

/// The whole body, with `note` between the table and the closing line.
pub open spec fn body_with(
    last_commit: Seq<char>,
    rows: Seq<(String, Option<BuildError>)>,
    note: Seq<char>,
) -> Seq<char> {
    INTRO@ + last_commit + MIDDLE@ + table(rows) + note + OUTRO@
}

/// The whole body, without a caution section.
pub open spec fn body(last_commit: Seq<char>, rows: Seq<(String, Option<BuildError>)>) -> Seq<
    char,
> {
    body_with(last_commit, rows, seq![])
}

/// The build and test glyphs of a result.
pub fn glyphs(result: &Option<BuildError>) -> (r: (&'static str, &'static str))
    ensures
        (r.0@, r.1@) == glyph_pair(*result),
        *result == Some(BuildError::Build) ==> r.0@ == FAILURE@ && r.1@ == FAILURE@,
        *result == Some(BuildError::Tests) ==> r.0@ == SUCCESS@ && r.1@ == FAILURE@,
        *result == None::<BuildError> ==> r.0@ == SUCCESS@ && r.1@ == SUCCESS@,
{
    match result {
        Some(BuildError::Build) => (FAILURE, FAILURE),
        Some(BuildError::Tests) => (SUCCESS, FAILURE),
        None => (SUCCESS, SUCCESS),
    }
}

/// The caution section for `candidates`; see [`caution`].
fn caution_note(candidates: &Vec<Candidate>) -> (r: Vec<char>)
    ensures
        r@ == caution(candidates@),
{
    let mut lines: Vec<char> = Vec::new();
    let mut i: usize = 0;
    while i < candidates.len()
        invariant
            i <= candidates.len(),
            lines@ == flagged(candidates@.subrange(0, i as int)),
        decreases candidates.len() - i,
    {
        assert(candidates@.subrange(0, i + 1).drop_last() == candidates@.subrange(0, i as int));
        if candidates[i].cross_cutting {
            push_str(&mut lines, "\n- ");
            push_str(&mut lines, candidates[i].id.as_str());
        }
        i = i + 1;
    }
    assert(candidates@.subrange(0, candidates.len() as int) == candidates@);
    if lines.len() == 0 {
        lines
    } else {
        let mut out = chars_of(CAUTION);
        out.append(&mut lines);
        out
    }
}

/// The body with `note` between the table and the closing line.
fn render(last_commit: String, commits: Vec<(String, Option<BuildError>)>, note: Vec<char>) -> (r:
    String)
    ensures
        r@ == body_with(last_commit@, commits@, note@),
{
    let mut tab = chars_of(HEADER);
    let mut i: usize = 0;
    while i < commits.len()
        invariant
            i <= commits.len(),
            tab@ == table(commits@.subrange(0, i as int)),
        decreases commits.len() - i,
    {
        assert(commits@.subrange(0, i + 1).drop_last() == commits@.subrange(0, i as int));
        let (build, test) = glyphs(&commits[i].1);
        push_str(&mut tab, "\n|");
        push_str(&mut tab, commits[i].0.as_str());
        push_str(&mut tab, "|");
        push_str(&mut tab, build);
        push_str(&mut tab, "|");
        push_str(&mut tab, test);
        push_str(&mut tab, "|");
        i = i + 1;
    }
    assert(commits@.subrange(0, commits.len() as int) == commits@);
    let mut out = chars_of(INTRO);
    push_str(&mut out, last_commit.as_str());
    push_str(&mut out, MIDDLE);
    out.append(&mut tab);
    let mut note = note;
    out.append(&mut note);
    push_str(&mut out, OUTRO);
    string_of(&out)
}

/// Renders the body of the pull request from the last forwarded title and
/// the result of each candidate, in replay order.
pub fn prepare_body(last_commit: String, commits: Vec<(String, Option<BuildError>)>) -> (r: String)
    ensures
        r@ == body(last_commit@, commits@),
{
    render(last_commit, commits, Vec::new())
}

/// Renders the body as [`prepare_body`] does, followed by the list of
/// cross-cutting candidates when there are any, so that a maintainer can decide
/// how to stage them.
pub fn prepare_report(
    last_commit: String,
    commits: Vec<(String, Option<BuildError>)>,
    candidates: &Vec<Candidate>,
) -> (r: String)
    ensures
        r@ == body_with(last_commit@, commits@, caution(candidates@)),
{
    render(last_commit, commits, caution_note(candidates))
}

} // verus!
