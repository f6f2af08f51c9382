use vstd::prelude::*;

use crate::text::{owned, views};

verus! {

/// `fetch [<remote>]`.
pub struct Fetch {
    pub remote: Option<String>,
}

/// A fetch from the default remote.
pub fn fetch() -> (r: Fetch)
    ensures
        r.remote is None,
{
    Fetch { remote: None }
}

impl Fetch {
    /// Fetches from `remote`.
    pub fn remote(self, remote: &str) -> (r: Fetch)
        ensures
            r.remote is Some,
            r.remote->0@ == remote@,
    {
        Fetch { remote: Some(owned(remote)) }
    }

    /// The arguments of this command.
    pub open spec fn spec_args(&self) -> Seq<Seq<char>> {
        seq!["fetch"@] + match self.remote {
            Some(r) => seq![r@],
            None => seq![],
        }
    }

    /// The arguments that follow the tool's name.
    pub fn args(&self) -> (r: Vec<String>)
        ensures
            views(r@) == self.spec_args(),
    {
        let mut r: Vec<String> = Vec::new();
        r.push(owned("fetch"));
        match &self.remote {
            Some(remote) => r.push(remote.clone()),
            None => {},
        }
        assert(views(r@) =~= self.spec_args());
        r
    }
}

} // verus!
