use vstd::prelude::*;

use crate::text::{owned, views};

verus! {

/// Where a new branch starts.
pub enum StartingPoint<T> {
    Commit(T),
    Branch(T),
    Either(T),
}

/// The name a starting point carries, whatever its kind.
pub open spec fn starting_name<T>(s: StartingPoint<T>) -> T {
    match s {
        StartingPoint::Commit(t) => t,
        StartingPoint::Branch(t) => t,
        StartingPoint::Either(t) => t,
    }
}

/// `branch [<name> [<starting point>]]`.
pub struct Branch {
    pub name: Option<String>,
    pub starting_point: Option<String>,
}

/// A branch command with nothing set.
pub fn branch() -> (r: Branch)
    ensures
        r.name is None,
        r.starting_point is None,
{
    Branch { name: None, starting_point: None }
}

impl Branch {
    /// Names the branch.
    pub fn name(self, name: &str) -> (r: Branch)
        ensures
            r.name is Some,
            r.name->0@ == name@,
            r.starting_point == self.starting_point,
    {
        Branch { name: Some(owned(name)), ..self }
    }

    /// Sets where the branch starts.
    pub fn starting_point(self, starting_point: StartingPoint<&str>) -> (r: Branch)
        ensures
            r.name == self.name,
            r.starting_point is Some,
            r.starting_point->0@ == starting_name(starting_point)@,
    {
        let s = match starting_point {
            StartingPoint::Commit(s) => s,
            StartingPoint::Branch(s) => s,
            StartingPoint::Either(s) => s,
        };
        Branch { starting_point: Some(owned(s)), ..self }
    }

    /// The arguments of this command.
    pub open spec fn spec_args(&self) -> Seq<Seq<char>> {
        seq!["branch"@] + match self.name {
            Some(n) => seq![n@],
            None => seq![],
        } + match self.starting_point {
            Some(s) => seq![s@],
            None => seq![],
        }
    }

    /// The arguments that follow the tool's name.
    pub fn args(&self) -> (r: Vec<String>)
        ensures
            views(r@) == self.spec_args(),
    {
        let mut r: Vec<String> = Vec::new();
        r.push(owned("branch"));
        match &self.name {
            Some(n) => r.push(n.clone()),
            None => {},
        }
        match &self.starting_point {
            Some(s) => r.push(s.clone()),
            None => {},
        }
        assert(views(r@) =~= self.spec_args());
        r
    }
}

} // verus!
