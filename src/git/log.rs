use vstd::prelude::*;

use super::{format_code, Branch, Format};
use crate::text::{chars_of, decimal, owned, push_decimal, push_str, string_of, views};

verus! {

/// `log [-<amount>] [--grep <pattern>] [--format=<format>] [<branch>]`.
pub struct Log {
    pub amount: Option<usize>,
    pub branch: Option<String>,
    pub grep: Option<String>,
    pub format: Option<Format>,
}

/// A log command with nothing set.
pub fn log() -> (r: Log)
    ensures
        r.amount is None,
        r.branch is None,
        r.grep is None,
        r.format is None,
{
    Log { amount: None, branch: None, grep: None, format: None }
}

impl Log {
    /// Shows at most `amount` commits.
    pub fn amount(self, amount: usize) -> (r: Log)
        ensures
            r.amount == Some(amount),
            r.branch == self.branch,
            r.grep == self.grep,
            r.format == self.format,
    {
        Log { amount: Some(amount), ..self }
    }

    /// Shows the history of `branch`.
    pub fn branch(self, branch: Branch<&str>) -> (r: Log)
        ensures
            r.amount == self.amount,
            r.branch is Some,
            r.branch->0@ == branch.0@,
            r.grep == self.grep,
            r.format == self.format,
    {
        Log { branch: Some(owned(branch.0)), ..self }
    }

    /// Shows only commits whose message matches `grep`.
    pub fn grep(self, grep: &str) -> (r: Log)
        ensures
            r.amount == self.amount,
            r.branch == self.branch,
            r.grep is Some,
            r.grep->0@ == grep@,
            r.format == self.format,
    {
        Log { grep: Some(owned(grep)), ..self }
    }

    /// Prints each commit in `format`.
    pub fn format(self, format: Format) -> (r: Log)
        ensures
            r.amount == self.amount,
            r.branch == self.branch,
            r.grep == self.grep,
            r.format == Some(format),
    {
        Log { format: Some(format), ..self }
    }

    /// The arguments of this command.
    pub open spec fn spec_args(&self) -> Seq<Seq<char>> {
        seq!["log"@] + match self.amount {
            Some(x) => seq![seq!['-'] + decimal(x as nat)],
            None => seq![],
        } + match self.grep {
            Some(g) => seq!["--grep"@, g@],
            None => seq![],
        } + match self.format {
            Some(f) => seq!["--format="@ + format_code(f)],
            None => seq![],
        } + match self.branch {
            Some(b) => seq![b@],
            None => seq![],
        }
    }

    /// The arguments that follow the tool's name.
    pub fn args(&self) -> (r: Vec<String>)
        ensures
            views(r@) == self.spec_args(),
    {
        let mut r: Vec<String> = Vec::new();
        r.push(owned("log"));
        match self.amount {
            Some(x) => {
                let mut a = chars_of("-");
                push_decimal(&mut a, x as u64);
                proof {
                    reveal_strlit("-");
                }
                assert(a@ == seq!['-'] + decimal(x as nat));
                r.push(string_of(&a));
            },
            None => {},
        }
        match &self.grep {
            Some(g) => {
                r.push(owned("--grep"));
                r.push(g.clone());
            },
            None => {},
        }
        match self.format {
            Some(f) => {
                let mut a = chars_of("--format=");
                push_str(&mut a, f.as_str());
                r.push(string_of(&a));
            },
            None => {},
        }
        match &self.branch {
            Some(b) => r.push(b.clone()),
            None => {},
        }
        assert(views(r@) =~= self.spec_args());
        r
    }
}

} // verus!
