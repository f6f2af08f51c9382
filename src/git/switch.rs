use vstd::prelude::*;

use crate::text::{owned, views};

verus! {

/// `switch <to>`.
pub struct Switch {
    pub to: String,
}

/// A switch to the branch `to`.
pub fn switch(to: &str) -> (r: Switch)
    ensures
        r.to@ == to@,
{
    Switch { to: owned(to) }
}

impl Switch {
    /// The arguments of this command.
    pub open spec fn spec_args(&self) -> Seq<Seq<char>> {
        seq!["switch"@, self.to@]
    }

    /// The arguments that follow the tool's name.
    pub fn args(&self) -> (r: Vec<String>)
        ensures
            views(r@) == self.spec_args(),
    {
        let mut r: Vec<String> = Vec::new();
        r.push(owned("switch"));
        r.push(self.to.clone());
        assert(views(r@) =~= self.spec_args());
        r
    }
}

} // verus!
