//! The migration pipeline: finding the correspondence point between the two
//! histories, choosing the commits to forward, and the per-commit replay,
//! validation and rewrite steps.

use vstd::prelude::*;
use vstd::string::*;

use crate::git::{self, Format};
use crate::make::{self, Make};
use crate::text::{
    chars_of, contains, is_prefix, lines, lines_of, occurs_in, owned, pieces, push_str, split,
    starts_with, string_of, views,
};

verus! {

/// The title prefix that marks a commit as already forwarded upstream.
pub const MARKER: &'static str = "gccrs: ";

/// The options of a run.
pub struct UpstreamOpt {
    /// The credential for opening the pull request; without one, the run
    /// stops after pushing the working branch.
    pub token: Option<String>,
    /// The branch the pull request targets.
    pub branch: String,
    /// The working tree.
    pub gccrs: String,
    /// The repository that receives the pull request.
    pub repo: String,
}

/// The remote of the upstream project.
pub const UPSTREAM_REMOTE: &'static str = "gcc";

/// The remote of the fork.
pub const SOURCE_REMOTE: &'static str = "upstream";

/// The upstream patch-staging branch.
pub const UPSTREAM_BRANCH: &'static str = "gcc/trunk";

/// The fork's mirror branch.
pub const SOURCE_BRANCH: &'static str = "upstream/master";

/// Where the working branch is pushed.
pub const PUSH_REMOTE: &'static str = "origin";

/// The directory the candidates are built in.
pub const BUILD_DIR: &'static str = "build-gerris";

/// How many build jobs run at once.
pub const JOBS: usize = 14;

/// The load average above which no new build job starts.
pub const LOAD: usize = 6;

/// The recipe that runs the tests.
pub const TEST_RECIPE: &'static str = "check-rust";

/// The build of a replayed candidate.
pub fn build_command() -> (r: Make)
    ensures
        r.directory matches Some(d) && d@ == BUILD_DIR@,
        r.jobs == Some(JOBS),
        r.load == Some(LOAD),
        r.recipes@.len() == 0,
{
    make::new().directory(BUILD_DIR).jobs(JOBS).load(LOAD)
}

/// The test run of a replayed candidate.
pub fn test_command() -> (r: Make)
    ensures
        r.directory matches Some(d) && d@ == BUILD_DIR@,
        r.jobs == Some(JOBS),
        r.load == Some(LOAD),
        views(r.recipes@) == seq![TEST_RECIPE@],
{
    let r = make::new().directory(BUILD_DIR).recipe(TEST_RECIPE).jobs(JOBS).load(LOAD);
    assert(views(r.recipes@) =~= seq![TEST_RECIPE@]);
    r
}

/// The path prefixes of the fork's own code: commits that change only these
/// are in scope.
pub fn default_scope() -> (r: Vec<String>)
    ensures
        views(r@) == seq!["gcc/rust/"@, "gcc/testsuite/rust/"@, "libgrust/"@],
{
    let mut r: Vec<String> = Vec::new();
    r.push(owned("gcc/rust/"));
    r.push(owned("gcc/testsuite/rust/"));
    r.push(owned("libgrust/"));
    assert(views(r@) =~= seq!["gcc/rust/"@, "gcc/testsuite/rust/"@, "libgrust/"@]);
    r
}

/// The titles on `branch` whose message mentions `text`, newest first. The
/// search reads patterns, so `text` is escaped first.
pub fn titles_query(text: &str, branch: &str) -> (r: git::log::Log)
    ensures
        r.amount is None,
        r.grep matches Some(g) && g@ == escaped(text@),
        r.format == Some(Format::Title),
        r.branch matches Some(b) && b@ == branch@,
{
    let pattern = escape_regex_characters(text);
    git::log().grep(pattern.as_str()).format(Format::Title).branch(git::Branch(branch))
}

/// The identifiers of the commits that [`titles_query`] lists, in the same order.
pub fn hashes_query(text: &str, branch: &str) -> (r: git::log::Log)
    ensures
        r.amount is None,
        r.grep matches Some(g) && g@ == escaped(text@),
        r.format == Some(Format::Hash),
        r.branch matches Some(b) && b@ == branch@,
{
    let pattern = escape_regex_characters(text);
    git::log().grep(pattern.as_str()).format(Format::Hash).branch(git::Branch(branch))
}

/// The message of the commit at the tip of the working branch.
pub fn message_query() -> (r: git::log::Log)
    ensures
        r.amount == Some(1usize),
        r.grep is None,
        r.format == Some(Format::Body),
        r.branch is None,
{
    git::log().amount(1).format(Format::Body)
}

/// Why a candidate failed validation.
#[derive(Clone, Copy, Debug, PartialEq, Eq, Structural)]
pub enum BuildError {
    /// The build failed, so the tests could not run either.
    Build,
    /// The build passed and the tests did not.
    Tests,
}

/// A character that the pattern search used against the source branch reads
/// as an operator: the metacharacters of a basic regular expression.
pub open spec fn is_pattern_special(c: char) -> bool {
    c == '\\' || c == '.' || c == '[' || c == ']' || c == '*' || c == '^' || c == '$'
}

/// `s` with a backslash before each metacharacter.
pub open spec fn escaped(s: Seq<char>) -> Seq<char>
    decreases s.len(),
{
    if s.len() == 0 {
        seq![]
    } else if is_pattern_special(s.last()) {
        escaped(s.drop_last()).push('\\').push(s.last())
    } else {
        escaped(s.drop_last()).push(s.last())
    }
}

/// Escapes `s` so that a pattern search matches it literally.
pub fn escape_regex_characters(s: &str) -> (r: String)
    ensures
        r@ == escaped(s@),
{
    let cs = chars_of(s);
    let mut out: Vec<char> = Vec::new();
    let mut i: usize = 0;
    while i < cs.len()
        invariant
            cs@ == s@,
            i <= cs.len(),
            out@ == escaped(cs@.subrange(0, i as int)),
        decreases cs.len() - i,
    {
        let c = cs[i];
        assert(cs@.subrange(0, i + 1).drop_last() == cs@.subrange(0, i as int));
        if c == '\\' || c == '.' || c == '[' || c == ']' || c == '*' || c == '^' || c == '$' {
            out.push('\\');
        }
        out.push(c);
        i = i + 1;
    }
    assert(cs@.subrange(0, cs.len() as int) == cs@);
    string_of(&out)
}

/// A message as forwarded: the marker put in front unless it is there already.
pub open spec fn rewritten(msg: Seq<char>, marker: Seq<char>) -> Seq<char> {
    if is_prefix(marker, msg) {
        msg
    } else {
        marker + msg
    }
}

/// The new message for a replayed commit, or `None` when it already carries
/// the marker and is left as it is. The marker goes in front of the title, so
/// the body is unchanged.
pub fn maybe_prefix(msg: &str, marker: &str) -> (r: Option<String>)
    ensures
        r is None <==> is_prefix(marker@, msg@),
        r matches Some(m) ==> m@ == marker@ + msg@,
        r matches Some(m) ==> m@ == rewritten(msg@, marker@),
{
    let m = chars_of(msg);
    let p = chars_of(marker);
    if starts_with(&m, &p) {
        None
    } else {
        let mut out = p;
        push_str(&mut out, msg);
        Some(string_of(&out))
    }
}

/// The verdict on a candidate whose build passed, from the test run: it failed
/// when the test command failed or when its output reports an unexpected or
/// unresolved result, since the runner may exit successfully with isolated
/// regressions.
pub open spec fn test_verdict(passed: bool, output: Seq<char>) -> Option<BuildError> {
    if !passed || occurs_in("unexpected"@, output) || occurs_in("unresolved"@, output) {
        Some(BuildError::Tests)
    } else {
        None
    }
}

/// Judges a test run; see [`test_verdict`].
pub fn judge_tests(passed: bool, output: &str) -> (r: Option<BuildError>)
    ensures
        r == test_verdict(passed, output@),
{
    if !passed {
        return Some(BuildError::Tests);
    }
    let out = chars_of(output);
    let unexpected = chars_of("unexpected");
    let unresolved = chars_of("unresolved");
    if contains(&out, &unexpected) || contains(&out, &unresolved) {
        Some(BuildError::Tests)
    } else {
        None
    }
}

/// One commit as the history lists it, newest first.
pub struct LogEntry {
    pub id: String,
    pub title: String,
}

/// Pairs the lines of two listings of the same commits, one of identifiers
/// and one of titles. `None` when they do not have as many lines.
pub fn log_entries(hashes: &str, titles: &str) -> (r: Option<Vec<LogEntry>>)
    ensures
        r is Some <==> lines_of(hashes@).len() == lines_of(titles@).len(),
        r matches Some(es) ==> es@.len() == lines_of(hashes@).len() && forall|k: int|
            0 <= k < es@.len() ==> (#[trigger] es@[k]).id@ == lines_of(hashes@)[k] && es@[k].title@
                == lines_of(titles@)[k],
{
    let ids = lines(hashes);
    let ts = lines(titles);
    if ids.len() != ts.len() {
        return None;
    }
    let mut es: Vec<LogEntry> = Vec::new();
    let mut i: usize = 0;
    while i < ids.len()
        invariant
            ids@.len() == ts@.len(),
            views(ids@) == lines_of(hashes@),
            views(ts@) == lines_of(titles@),
            i <= ids@.len(),
            es@.len() == i,
            forall|k: int|
                0 <= k < i ==> (#[trigger] es@[k]).id@ == lines_of(hashes@)[k] && es@[k].title@
                    == lines_of(titles@)[k],
        decreases ids.len() - i,
    {
        assert(views(ids@)[i as int] == ids@[i as int]@);
        assert(views(ts@)[i as int] == ts@[i as int]@);
        es.push(LogEntry { id: ids[i].clone(), title: ts[i].clone() });
        i = i + 1;
    }
    Some(es)
}

/// Why no correspondence point was found.
#[derive(Clone, Copy, Debug, PartialEq, Eq, Structural)]
pub enum ResolveError {
    /// No upstream commit carries the marker: the first one must be forwarded by hand.
    NoMarkedCommit,
    /// The last forwarded title is on no source commit: the source history was rewritten.
    TitleNotFound,
}

/// The source commit that was forwarded last.
pub struct Correspondence {
    /// Its title, as in the source history.
    pub title: String,
    /// Its identifier.
    pub id: String,
    /// Its position in the source history, newest first.
    pub index: usize,
}

/// The first (newest) title that carries the marker.
pub open spec fn first_marked(titles: Seq<Seq<char>>, marker: Seq<char>) -> Option<Seq<char>>
    decreases titles.len(),
{
    if titles.len() == 0 {
        None
    } else if is_prefix(marker, titles[0]) {
        Some(titles[0])
    } else {
        first_marked(titles.drop_first(), marker)
    }
}

/// The position of the first (newest) source commit titled `title`.
pub open spec fn first_titled(source: Seq<LogEntry>, title: Seq<char>) -> Option<int>
    decreases source.len(),
{
    if source.len() == 0 {
        None
    } else if source[0].title@ == title {
        Some(0)
    } else {
        match first_titled(source.drop_first(), title) {
            Some(i) => Some(i + 1),
            None => None,
        }
    }
}

/// `t` without its first `n` characters.
pub open spec fn strip(t: Seq<char>, n: nat) -> Seq<char> {
    t.subrange(n as int, t.len() as int)
}

/// The correspondence point of the two histories, both listed newest first:
/// the title of the newest marked upstream commit without its marker, and the
/// position of the newest source commit with that title.
pub open spec fn correspondence(
    upstream: Seq<Seq<char>>,
    source: Seq<LogEntry>,
    marker: Seq<char>,
) -> Result<(Seq<char>, int), ResolveError> {
    match first_marked(upstream, marker) {
        None => Err(ResolveError::NoMarkedCommit),
        Some(t) => match first_titled(source, strip(t, marker.len())) {
            None => Err(ResolveError::TitleNotFound),
            Some(i) => Ok((strip(t, marker.len()), i)),
        },
    }
}

/// What `first_titled` finds is a source commit with that title, and the newest one.
pub proof fn lemma_first_titled(source: Seq<LogEntry>, title: Seq<char>)
    ensures
        first_titled(source, title) matches Some(i) ==> 0 <= i < source.len()
            && source[i].title@ == title
            && forall|j: int| 0 <= j < i ==> source[j].title@ != title,
        first_titled(source, title) is None ==> forall|j: int|
            0 <= j < source.len() ==> source[j].title@ != title,
    decreases source.len(),
{
    if source.len() > 0 {
        lemma_first_titled(source.drop_first(), title);
        assert forall|j: int| 0 < j < source.len() implies source[j] == source.drop_first()[j
            - 1] by {}
    }
}

/// What `first_marked` finds carries the marker.
pub proof fn lemma_first_marked(titles: Seq<Seq<char>>, marker: Seq<char>)
    ensures
        first_marked(titles, marker) matches Some(t) ==> is_prefix(marker, t),
    decreases titles.len(),
{
    if titles.len() > 0 {
        lemma_first_marked(titles.drop_first(), marker);
    }
}

/// The newest marked title of `upstream`.
fn find_marked(upstream: &Vec<String>, marker: &Vec<char>) -> (r: Option<usize>)
    ensures
        r matches Some(k) ==> k < upstream@.len() && first_marked(views(upstream@), marker@)
            == Some(upstream@[k as int]@),
        r is None ==> first_marked(views(upstream@), marker@) is None,
{
    let ghost ts = views(upstream@);
    assert(ts.subrange(0, ts.len() as int) == ts);
    let mut i: usize = 0;
    while i < upstream.len()
        invariant
            ts == views(upstream@),
            i <= upstream.len(),
            first_marked(ts, marker@) == first_marked(ts.subrange(i as int, ts.len() as int), marker@),
        decreases upstream.len() - i,
    {
        let t = chars_of(upstream[i].as_str());
        assert(ts.subrange(i as int, ts.len() as int).drop_first() == ts.subrange(i + 1, ts.len() as int));
        if starts_with(&t, marker) {
            return Some(i);
        }
        i = i + 1;
    }
    assert(ts.subrange(i as int, ts.len() as int).len() == 0);
    None
}

/// The newest commit of `source` titled `title`.
fn find_titled(source: &Vec<LogEntry>, title: &String) -> (r: Option<usize>)
    ensures
        r matches Some(k) ==> first_titled(source@, title@) == Some(k as int),
        r is None ==> first_titled(source@, title@) is None,
{
    assert(source@.subrange(0, source@.len() as int) == source@);
    let mut i: usize = 0;
    while i < source.len()
        invariant
            i <= source.len(),
            first_titled(source@, title@) == match first_titled(
                source@.subrange(i as int, source@.len() as int),
                title@,
            ) {
                Some(j) => Some(j + i),
                None => None,
            },
        decreases source.len() - i,
    {
        assert(source@.subrange(i as int, source@.len() as int).drop_first() == source@.subrange(
            i + 1,
            source@.len() as int,
        ));
        if source[i].title == *title {
            return Some(i);
        }
        i = i + 1;
    }
    None
}

/// The title of the newest commit of `upstream` (titles, newest first) that
/// carries `marker`, without the marker: the title the commit had in the
/// source history.
pub fn last_forwarded(upstream: &Vec<String>, marker: &str) -> (r: Option<String>)
    ensures
        match first_marked(views(upstream@), marker@) {
            None => r is None,
            Some(t) => r matches Some(s) && s@ == strip(t, marker@.len()),
        },
{
    let m = chars_of(marker);
    match find_marked(upstream, &m) {
        None => None,
        Some(k) => {
            let t = upstream[k].as_str();
            proof {
                lemma_first_marked(views(upstream@), m@);
            }
            Some(owned(t.substring_char(marker.unicode_len(), t.unicode_len())))
        },
    }
}

/// Finds the correspondence point: the newest commit of `upstream` (titles,
/// newest first) that carries `marker`, stripped of it, and the newest commit
/// of `source` (newest first) with exactly that title.
pub fn resolve(upstream: &Vec<String>, source: &Vec<LogEntry>, marker: &str) -> (r: Result<
    Correspondence,
    ResolveError,
>)
    ensures
        match correspondence(views(upstream@), source@, marker@) {
            Ok((t, i)) => r matches Ok(c) && c.title@ == t && c.index == i && c.id
                == source@[i].id && source@[i].title@ == t,
            Err(e) => r == Err::<Correspondence, ResolveError>(e),
        },
{
    match last_forwarded(upstream, marker) {
        None => Err(ResolveError::NoMarkedCommit),
        Some(title) => {
            proof {
                lemma_first_titled(source@, title@);
            }
            match find_titled(source, &title) {
                None => Err(ResolveError::TitleNotFound),
                Some(i) => Ok(Correspondence { title, id: source[i].id.clone(), index: i }),
            }
        },
    }
}

/// A commit as rev-list lists it, with its number of parents and the paths it changes.
pub struct RevEntry {
    pub id: String,
    pub parents: usize,
    pub files: Vec<String>,
}

/// A commit to forward, flagged when it changes paths outside the scope.
pub struct Candidate {
    pub id: String,
    pub cross_cutting: bool,
}

/// `path` lies under one of the scope's prefixes.
pub open spec fn under_scope(path: Seq<char>, scope: Seq<Seq<char>>) -> bool {
    exists|j: int| 0 <= j < scope.len() && #[trigger] is_prefix(scope[j], path)
}

/// Every path lies under one of the scope's prefixes.
pub open spec fn in_scope(files: Seq<Seq<char>>, scope: Seq<Seq<char>>) -> bool {
    forall|i: int| 0 <= i < files.len() ==> #[trigger] under_scope(files[i], scope)
}

/// The entries with at most one parent, in the order given.
pub open spec fn non_merges(entries: Seq<RevEntry>) -> Seq<RevEntry>
    decreases entries.len(),
{
    if entries.len() == 0 {
        seq![]
    } else if entries.last().parents <= 1 {
        non_merges(entries.drop_last()).push(entries.last())
    } else {
        non_merges(entries.drop_last())
    }
}

/// Reads one line of rev-list's output with parents: the commit's identifier
/// followed by those of its parents, separated by spaces. `None` for a line
/// that starts with no identifier.
pub fn parse_rev_line(line: &str) -> (r: Option<(String, usize)>)
    ensures
        r is None <==> pieces(line@, ' ')[0].len() == 0,
        r matches Some((id, n)) ==> id@ == pieces(line@, ' ')[0] && n == pieces(line@, ' ').len()
            - 1,
{
    let fields = split(line, ' ');
    proof {
        crate::text::lemma_pieces_len(line@, ' ');
    }
    assert(fields@[0]@ == views(fields@)[0]);
    if fields[0].unicode_len() == 0 {
        None
    } else {
        Some((fields[0].clone(), fields.len() - 1))
    }
}

/// The commits after `point` on `source` that are not on `exclude`, oldest
/// first, each with its parents.
pub fn candidates_query(point: &str, source: &str, exclude: &str) -> (r: git::rev_list::RevList)
    ensures
        r.start@ == point@,
        r.end@ == source@,
        !r.prevent_merges,
        r.reverse,
        r.with_parents,
        r.exclude matches Some(e) && e@ == exclude@,
        r.dirs@.len() == 0,
{
    git::rev_list(point, source).reverse().parents().exclude(git::Branch(exclude))
}

/// Reads rev-list's output with parents, one commit per line, into each
/// commit's identifier and number of parents. `None` when a line starts with
/// no identifier.
pub fn parse_rev_list(listing: &str) -> (r: Option<Vec<(String, usize)>>)
    ensures
        r is Some <==> forall|k: int|
            0 <= k < lines_of(listing@).len() ==> pieces(#[trigger] lines_of(listing@)[k], ' ')[0].len()
                > 0,
        r matches Some(v) ==> v@.len() == lines_of(listing@).len() && forall|k: int|
            0 <= k < v@.len() ==> (#[trigger] v@[k]).0@ == pieces(lines_of(listing@)[k], ' ')[0]
                && v@[k].1 == pieces(lines_of(listing@)[k], ' ').len() - 1,
{
    let ls = lines(listing);
    let mut v: Vec<(String, usize)> = Vec::new();
    let mut i: usize = 0;
    while i < ls.len()
        invariant
            views(ls@) == lines_of(listing@),
            i <= ls@.len(),
            v@.len() == i,
            forall|k: int|
                0 <= k < i ==> pieces(#[trigger] lines_of(listing@)[k], ' ')[0].len() > 0,
            forall|k: int|
                0 <= k < i ==> (#[trigger] v@[k]).0@ == pieces(lines_of(listing@)[k], ' ')[0]
                    && v@[k].1 == pieces(lines_of(listing@)[k], ' ').len() - 1,
        decreases ls.len() - i,
    {
        assert(views(ls@)[i as int] == ls@[i as int]@);
        match parse_rev_line(ls[i].as_str()) {
            None => return None,
            Some(entry) => v.push(entry),
        }
        i = i + 1;
    }
    Some(v)
}

/// Whether `path` lies under one of the prefixes of `scope`.
fn path_in_scope(path: &String, scope: &Vec<Vec<char>>) -> (r: bool)
    ensures
        r == exists|j: int| 0 <= j < scope@.len() && #[trigger] is_prefix(scope@[j]@, path@),
{
    let p = chars_of(path.as_str());
    let mut j: usize = 0;
    while j < scope.len()
        invariant
            p@ == path@,
            j <= scope.len(),
            forall|k: int| 0 <= k < j ==> !#[trigger] is_prefix(scope@[k]@, path@),
        decreases scope.len() - j,
    {
        if starts_with(&p, &scope[j]) {
            return true;
        }
        j = j + 1;
    }
    false
}

/// Whether every path of `files` lies under the scope.
fn files_in_scope(files: &Vec<String>, scope: &Vec<Vec<char>>, ghost_scope: Ghost<Seq<Seq<char>>>) -> (r: bool)
    requires
        ghost_scope@.len() == scope@.len(),
        forall|j: int| 0 <= j < scope@.len() ==> #[trigger] ghost_scope@[j] == scope@[j]@,
    ensures
        r == in_scope(views(files@), ghost_scope@),
{
    let mut i: usize = 0;
    while i < files.len()
        invariant
            i <= files.len(),
            ghost_scope@.len() == scope@.len(),
            forall|j: int| 0 <= j < scope@.len() ==> #[trigger] ghost_scope@[j] == scope@[j]@,
            forall|k: int| 0 <= k < i ==> #[trigger] under_scope(views(files@)[k], ghost_scope@),
        decreases files.len() - i,
    {
        let inside = path_in_scope(&files[i], scope);
        if !inside {
            assert(!under_scope(views(files@)[i as int], ghost_scope@));
            return false;
        }
        assert(under_scope(views(files@)[i as int], ghost_scope@)) by {
            let j = choose|j: int| 0 <= j < scope@.len() && #[trigger] is_prefix(scope@[j]@, files@[i as int]@);
            assert(is_prefix(ghost_scope@[j], views(files@)[i as int]));
        }
        i = i + 1;
    }
    true
}

/// The candidate set: the entries with at most one parent, in the order
/// rev-list gave them (oldest first when asked so), each flagged as
/// cross-cutting when it changes a path outside every prefix of `scope`.
/// Cross-cutting commits stay in the set: the flag is advice for the report.
pub fn classify(entries: &Vec<RevEntry>, scope: &Vec<String>) -> (r: Vec<Candidate>)
    ensures
        r@.len() == non_merges(entries@).len(),
        forall|k: int|
            0 <= k < r@.len() ==> (#[trigger] r@[k]).id == non_merges(entries@)[k].id
                && r@[k].cross_cutting == !in_scope(
                views(non_merges(entries@)[k].files@),
                views(scope@),
            ),
{
    let mut prefixes: Vec<Vec<char>> = Vec::new();
    let mut j: usize = 0;
    while j < scope.len()
        invariant
            j <= scope.len(),
            prefixes@.len() == j,
            forall|k: int| 0 <= k < j ==> #[trigger] views(scope@)[k] == prefixes@[k]@,
        decreases scope.len() - j,
    {
        prefixes.push(chars_of(scope[j].as_str()));
        j = j + 1;
    }
    let ghost sc = views(scope@);
    let mut r: Vec<Candidate> = Vec::new();
    let mut i: usize = 0;
    while i < entries.len()
        invariant
            i <= entries.len(),
            sc == views(scope@),
            sc.len() == prefixes@.len(),
            forall|k: int| 0 <= k < prefixes@.len() ==> #[trigger] sc[k] == prefixes@[k]@,
            r@.len() == non_merges(entries@.subrange(0, i as int)).len(),
            forall|k: int|
                0 <= k < r@.len() ==> (#[trigger] r@[k]).id == non_merges(
                    entries@.subrange(0, i as int),
                )[k].id && r@[k].cross_cutting == !in_scope(
                    views(non_merges(entries@.subrange(0, i as int))[k].files@),
                    sc,
                ),
        decreases entries.len() - i,
    {
        let ghost prev = entries@.subrange(0, i as int);
        assert(entries@.subrange(0, i + 1).drop_last() == prev);
        let e = &entries[i];
        if e.parents <= 1 {
            let inside = files_in_scope(&e.files, &prefixes, Ghost(sc));
            r.push(Candidate { id: e.id.clone(), cross_cutting: !inside });
        }
        i = i + 1;
    }
    assert(entries@.subrange(0, entries.len() as int) == entries@);
    r
}

/// The positions in `entries` that `non_merges` keeps, in increasing order.
pub open spec fn kept_positions(entries: Seq<RevEntry>) -> Seq<int>
    decreases entries.len(),
{
    if entries.len() == 0 {
        seq![]
    } else if entries.last().parents <= 1 {
        kept_positions(entries.drop_last()).push(entries.len() - 1)
    } else {
        kept_positions(entries.drop_last())
    }
}

/// The candidate set keeps the order of the listing it was taken from (so it
/// is oldest first when the listing is), and holds no commit with more than
/// one parent.
pub proof fn law_candidates_ordered_without_merges(entries: Seq<RevEntry>)
    ensures
        forall|k: int|
            0 <= k < non_merges(entries).len() ==> (#[trigger] non_merges(entries)[k]).parents
                <= 1,
        kept_positions(entries).len() == non_merges(entries).len(),
        forall|k: int|
            0 <= k < non_merges(entries).len() ==> 0 <= #[trigger] kept_positions(entries)[k]
                < entries.len() && entries[kept_positions(entries)[k]] == non_merges(entries)[k],
        forall|k1: int, k2: int|
            0 <= k1 < k2 < kept_positions(entries).len() ==> #[trigger] kept_positions(entries)[k1]
                < #[trigger] kept_positions(entries)[k2],
    decreases entries.len(),
{
    if entries.len() > 0 {
        let rest = entries.drop_last();
        law_candidates_ordered_without_merges(rest);
        assert forall|k: int| 0 <= k < rest.len() implies entries[k] == rest[k] by {}
    }
}

/// Whenever upstream holds a marked commit, resolution either finds a source
/// commit whose title is exactly the stripped title, or reports that no source
/// commit has that title.
pub proof fn law_resolved_title_is_in_source(
    upstream: Seq<Seq<char>>,
    source: Seq<LogEntry>,
    marker: Seq<char>,
)
    requires
        first_marked(upstream, marker) is Some,
    ensures
        correspondence(upstream, source, marker) matches Ok((t, i)) ==> 0 <= i < source.len()
            && source[i].title@ == t,
        correspondence(upstream, source, marker) is Err ==> correspondence(
            upstream,
            source,
            marker,
        ) == Err::<(Seq<char>, int), ResolveError>(ResolveError::TitleNotFound) && forall|j: int|
            0 <= j < source.len() ==> source[j].title@ != strip(
                first_marked(upstream, marker)->0,
                marker.len(),
            ),
{
    lemma_first_titled(source, strip(first_marked(upstream, marker)->0, marker.len()));
}

/// Rewriting is idempotent: a rewritten message carries the marker, and
/// rewriting it again leaves it as it is.
pub proof fn law_rewrite_idempotent(msg: Seq<char>, marker: Seq<char>)
    ensures
        is_prefix(marker, rewritten(msg, marker)),
        rewritten(rewritten(msg, marker), marker) == rewritten(msg, marker),
{
    assert((marker + msg).subrange(0, marker.len() as int) =~= marker);
}

/// The positions, newest first, of the source commits newer than position
/// `point` that are not merges (`merges[k]` tells whether commit `k` is one).
pub open spec fn newer_non_merges(merges: Seq<bool>, point: int) -> Seq<int>
    decreases point,
{
    if point <= 0 {
        seq![]
    } else {
        newer_non_merges(merges, point - 1) + if !merges[point - 1] {
            seq![point - 1]
        } else {
            seq![]
        }
    }
}

/// The titles a run leaves upstream, newest first: each candidate's title, rewritten.
pub open spec fn forwarded(
    source: Seq<LogEntry>,
    merges: Seq<bool>,
    point: int,
    marker: Seq<char>,
) -> Seq<Seq<char>> {
    newer_non_merges(merges, point).map_values(|k: int| rewritten(source[k].title@, marker))
}

proof fn lemma_newer_non_merges(merges: Seq<bool>, point: int)
    requires
        0 <= point <= merges.len(),
    ensures
        forall|x: int|
            0 <= x < newer_non_merges(merges, point).len() ==> 0 <= #[trigger] newer_non_merges(
                merges,
                point,
            )[x] < point && !merges[newer_non_merges(merges, point)[x]],
        newer_non_merges(merges, point).len() == 0 <==> forall|j: int|
            0 <= j < point ==> #[trigger] merges[j],
        newer_non_merges(merges, point).len() > 0 ==> forall|j: int|
            0 <= j < newer_non_merges(merges, point)[0] ==> #[trigger] merges[j],
    decreases point,
{
    if point > 0 {
        lemma_newer_non_merges(merges, point - 1);
        let prev = newer_non_merges(merges, point - 1);
        let cur = newer_non_merges(merges, point);
        if prev.len() > 0 {
            assert(cur[0] == prev[0]);
        }
        if !merges[point - 1] {
            assert(cur.len() > 0);
        }
        assert forall|x: int| 0 <= x < cur.len() implies 0 <= #[trigger] cur[x] < point
            && !merges[cur[x]] by {
            if x < prev.len() {
                assert(cur[x] == prev[x]);
            }
        }
    }
}

/// A run that forwards every candidate, each under its rewritten title,
/// leaves nothing to forward: resolving again against the new upstream
/// history succeeds, and no non-merge source commit is newer than the new
/// correspondence point. This holds when the forwarded commits did not
/// already carry the marker in the source history: one that did keeps its
/// title, and stripping the marker from it gives a title that the source
/// history does not have.
pub proof fn law_rerun_finds_nothing(
    upstream: Seq<Seq<char>>,
    source: Seq<LogEntry>,
    merges: Seq<bool>,
    marker: Seq<char>,
)
    requires
        merges.len() == source.len(),
        correspondence(upstream, source, marker) is Ok,
        forall|k: int|
            0 <= k < correspondence(upstream, source, marker)->Ok_0.1 && !merges[k] ==> !is_prefix(
                marker,
                #[trigger] source[k].title@,
            ),
    ensures
        ({
            let point = correspondence(upstream, source, marker)->Ok_0.1;
            let after = forwarded(source, merges, point, marker) + upstream;
            correspondence(after, source, marker) is Ok && newer_non_merges(
                merges,
                correspondence(after, source, marker)->Ok_0.1,
            ).len() == 0
        }),
{
    let point = correspondence(upstream, source, marker)->Ok_0.1;
    let t = strip(first_marked(upstream, marker)->0, marker.len());
    lemma_first_titled(source, t);
    let pending = newer_non_merges(merges, point);
    let after = forwarded(source, merges, point, marker) + upstream;
    lemma_newer_non_merges(merges, point);
    if pending.len() == 0 {
        assert(after =~= upstream);
    } else {
        let k0 = pending[0];
        let title = source[k0].title@;
        assert(after[0] == rewritten(title, marker));
        assert(after[0] == marker + title);
        assert((marker + title).subrange(0, marker.len() as int) =~= marker);
        assert(first_marked(after, marker) == Some(marker + title));
        assert(strip(marker + title, marker.len()) =~= title);
        lemma_first_titled(source, title);
        let i2 = first_titled(source, title)->0;
        assert(i2 <= k0);
        lemma_newer_non_merges(merges, i2);
    }
}

} // verus!
