use vstd::prelude::*;

use super::Commit;
use crate::text::{owned, views};

verus! {

/// `diff-tree --no-commit-id --name-only -r <commit>`: the paths a commit
/// changes relative to its parent, one per line.
pub struct DiffTree {
    pub commit: String,
}

/// The paths that `commit` changes.
pub fn diff_tree(commit: Commit<&str>) -> (r: DiffTree)
    ensures
        r.commit@ == commit.0@,
{
    DiffTree { commit: owned(commit.0) }
}

impl DiffTree {
    /// The arguments of this command.
    pub open spec fn spec_args(&self) -> Seq<Seq<char>> {
        seq!["diff-tree"@, "--no-commit-id"@, "--name-only"@, "-r"@, self.commit@]
    }

    /// The arguments that follow the tool's name.
    pub fn args(&self) -> (r: Vec<String>)
        ensures
            views(r@) == self.spec_args(),
    {
        let mut r: Vec<String> = Vec::new();
        r.push(owned("diff-tree"));
        r.push(owned("--no-commit-id"));
        r.push(owned("--name-only"));
        r.push(owned("-r"));
        r.push(self.commit.clone());
        assert(views(r@) =~= self.spec_args());
        r
    }
}

} // verus!
