use vstd::prelude::*;

use crate::text::{owned, views};

verus! {

/// `commit [--amend] [-m <message>]`.
pub struct Commit {
    pub amend: bool,
    pub message: Option<String>,
}

/// A commit command with nothing set.
pub fn commit() -> (r: Commit)
    ensures
        !r.amend,
        r.message is None,
{
    Commit { amend: false, message: None }
}

impl Commit {
    /// Amends the last commit instead of making a new one.
    pub fn amend(self) -> (r: Commit)
        ensures
            r.amend,
            r.message == self.message,
    {
        Commit { amend: true, ..self }
    }

    /// Sets the commit message.
    pub fn message(self, message: &str) -> (r: Commit)
        ensures
            r.amend == self.amend,
            r.message is Some,
            r.message->0@ == message@,
    {
        Commit { message: Some(owned(message)), ..self }
    }

    /// The arguments of this command.
    pub open spec fn spec_args(&self) -> Seq<Seq<char>> {
        seq!["commit"@] + (if self.amend {
            seq!["--amend"@]
        } else {
            seq![]
        }) + match self.message {
            Some(m) => seq!["-m"@, m@],
            None => seq![],
        }
    }

    /// The arguments that follow the tool's name.
    pub fn args(&self) -> (r: Vec<String>)
        ensures
            views(r@) == self.spec_args(),
    {
        let mut r: Vec<String> = Vec::new();
        r.push(owned("commit"));
        if self.amend {
            r.push(owned("--amend"));
        }
        match &self.message {
            Some(m) => {
                r.push(owned("-m"));
                r.push(m.clone());
            },
            None => {},
        }
        assert(views(r@) =~= self.spec_args());
        r
    }
}

} // verus!
