use vstd::prelude::*;

use super::{Branch, Remote};
use crate::text::{owned, views};

verus! {

/// `push [-u <upstream>] <refspec>...`.
pub struct Push {
    pub upstream: Option<String>,
    pub refspecs: Vec<String>,
}

/// A push command with nothing set.
pub fn push() -> (r: Push)
    ensures
        r.upstream is None,
        r.refspecs@.len() == 0,
{
    Push { upstream: None, refspecs: Vec::new() }
}

impl Push {
    /// Pushes to `upstream` and sets it as the branch's upstream.
    pub fn upstream(self, upstream: Remote<&str>) -> (r: Push)
        ensures
            r.upstream is Some,
            r.upstream->0@ == upstream.0@,
            r.refspecs == self.refspecs,
    {
        Push { upstream: Some(owned(upstream.0)), ..self }
    }

    /// Adds `branch` to the refspecs pushed.
    pub fn branch(self, branch: Branch<&str>) -> (r: Push)
        ensures
            r.upstream == self.upstream,
            views(r.refspecs@) == views(self.refspecs@).push(branch.0@),
    {
        let mut refspecs = self.refspecs;
        refspecs.push(owned(branch.0));
        assert(views(refspecs@) =~= views(self.refspecs@).push(branch.0@));
        Push { refspecs, ..self }
    }

    /// The arguments of this command.
    pub open spec fn spec_args(&self) -> Seq<Seq<char>> {
        seq!["push"@] + match self.upstream {
            Some(u) => seq!["-u"@, u@],
            None => seq![],
        } + views(self.refspecs@)
    }

    /// The arguments that follow the tool's name.
    pub fn args(&self) -> (r: Vec<String>)
        ensures
            views(r@) == self.spec_args(),
    {
        let mut r: Vec<String> = Vec::new();
        r.push(owned("push"));
        match &self.upstream {
            Some(u) => {
                r.push(owned("-u"));
                r.push(u.clone());
            },
            None => {},
        }
        let ghost head = views(r@);
        let mut i: usize = 0;
        while i < self.refspecs.len()
            invariant
                i <= self.refspecs.len(),
                views(r@) == head + views(self.refspecs@.subrange(0, i as int)),
            decreases self.refspecs.len() - i,
        {
            let ghost before = r@;
            r.push(self.refspecs[i].clone());
            assert(views(r@) =~= views(before).push(self.refspecs@[i as int]@));
            assert(views(self.refspecs@.subrange(0, i + 1)) =~= views(
                self.refspecs@.subrange(0, i as int),
            ).push(self.refspecs@[i as int]@));
            assert(views(r@) =~= head + views(self.refspecs@.subrange(0, i + 1)));
            i = i + 1;
        }
        assert(self.refspecs@.subrange(0, self.refspecs.len() as int) == self.refspecs@);
        assert(views(r@) =~= self.spec_args());
        r
    }
}

} // verus!
