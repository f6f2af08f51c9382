use vstd::prelude::*;

use super::Commit;
use crate::text::{owned, views};

verus! {

/// `cherry-pick <commit>`.
pub struct CherryPick {
    pub commit: String,
}

/// A cherry-pick of `commit`.
pub fn cherry_pick(commit: Commit<&str>) -> (r: CherryPick)
    ensures
        r.commit@ == commit.0@,
{
    CherryPick { commit: owned(commit.0) }
}

impl CherryPick {
    /// The arguments of this command.
    pub open spec fn spec_args(&self) -> Seq<Seq<char>> {
        seq!["cherry-pick"@, self.commit@]
    }

    /// The arguments that follow the tool's name.
    pub fn args(&self) -> (r: Vec<String>)
        ensures
            views(r@) == self.spec_args(),
    {
        let mut r: Vec<String> = Vec::new();
        r.push(owned("cherry-pick"));
        r.push(self.commit.clone());
        assert(views(r@) =~= self.spec_args());
        r
    }
}

} // verus!
