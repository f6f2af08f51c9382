use vstd::prelude::*;

use super::Branch;
use crate::text::{chars_of, owned, push_str, string_of, views};

verus! {

/// `rev-list <start>..<end> [--reverse] [--no-merges] [--parents] [^<exclude>] [-- <dir>...]`.
pub struct RevList {
    pub start: String,
    pub end: String,
    pub prevent_merges: bool,
    pub reverse: bool,
    pub with_parents: bool,
    pub exclude: Option<String>,
    pub dirs: Vec<String>,
}

/// The commits reachable from `end` but not from `start`.
pub fn rev_list(start: &str, end: &str) -> (r: RevList)
    ensures
        r.start@ == start@,
        r.end@ == end@,
        !r.prevent_merges,
        !r.reverse,
        !r.with_parents,
        r.exclude is None,
        r.dirs@.len() == 0,
{
    RevList {
        start: owned(start),
        end: owned(end),
        prevent_merges: false,
        reverse: false,
        with_parents: false,
        exclude: None,
        dirs: Vec::new(),
    }
}

impl RevList {
    /// Leaves out commits with more than one parent.
    pub fn no_merges(self) -> (r: RevList)
        ensures
            r.start == self.start,
            r.end == self.end,
            r.prevent_merges,
            r.reverse == self.reverse,
            r.with_parents == self.with_parents,
            r.exclude == self.exclude,
            r.dirs == self.dirs,
    {
        RevList { prevent_merges: true, ..self }
    }

    /// Lists the oldest commit first.
    pub fn reverse(self) -> (r: RevList)
        ensures
            r.start == self.start,
            r.end == self.end,
            r.prevent_merges == self.prevent_merges,
            r.reverse,
            r.with_parents == self.with_parents,
            r.exclude == self.exclude,
            r.dirs == self.dirs,
    {
        RevList { reverse: true, ..self }
    }

    /// Prints the parents of each commit after it, on the same line.
    pub fn parents(self) -> (r: RevList)
        ensures
            r.start == self.start,
            r.end == self.end,
            r.prevent_merges == self.prevent_merges,
            r.reverse == self.reverse,
            r.with_parents,
            r.exclude == self.exclude,
            r.dirs == self.dirs,
    {
        RevList { with_parents: true, ..self }
    }

    /// Leaves out the commits reachable from `branch`.
    pub fn exclude(self, branch: Branch<&str>) -> (r: RevList)
        ensures
            r.start == self.start,
            r.end == self.end,
            r.prevent_merges == self.prevent_merges,
            r.reverse == self.reverse,
            r.with_parents == self.with_parents,
            r.exclude is Some,
            r.exclude->0@ == branch.0@,
            r.dirs == self.dirs,
    {
        RevList { exclude: Some(owned(branch.0)), ..self }
    }

    /// Adds a directory to the paths the listed commits must touch.
    pub fn dir(self, to_add: &str) -> (r: RevList)
        ensures
            r.start == self.start,
            r.end == self.end,
            r.prevent_merges == self.prevent_merges,
            r.reverse == self.reverse,
            r.with_parents == self.with_parents,
            r.exclude == self.exclude,
            views(r.dirs@) == views(self.dirs@).push(to_add@),
    {
        let mut dirs = self.dirs;
        dirs.push(owned(to_add));
        assert(views(dirs@) =~= views(self.dirs@).push(to_add@));
        RevList { dirs, ..self }
    }

    /// Replaces the directories the listed commits must touch.
    pub fn dirs(self, dirs: Vec<String>) -> (r: RevList)
        ensures
            r.start == self.start,
            r.end == self.end,
            r.prevent_merges == self.prevent_merges,
            r.reverse == self.reverse,
            r.with_parents == self.with_parents,
            r.exclude == self.exclude,
            r.dirs == dirs,
    {
        RevList { dirs, ..self }
    }

    /// The arguments of this command.
    pub open spec fn spec_args(&self) -> Seq<Seq<char>> {
        seq!["rev-list"@, self.start@ + ".."@ + self.end@] + (if self.reverse {
            seq!["--reverse"@]
        } else {
            seq![]
        }) + (if self.prevent_merges {
            seq!["--no-merges"@]
        } else {
            seq![]
        }) + (if self.with_parents {
            seq!["--parents"@]
        } else {
            seq![]
        }) + match self.exclude {
            Some(e) => seq![seq!['^'] + e@],
            None => seq![],
        } + (if self.dirs@.len() > 0 {
            seq!["--"@]
        } else {
            seq![]
        }) + views(self.dirs@)
    }

    /// The arguments that follow the tool's name.
    pub fn args(&self) -> (r: Vec<String>)
        ensures
            views(r@) == self.spec_args(),
    {
        let mut r: Vec<String> = Vec::new();
        r.push(owned("rev-list"));
        let mut range = chars_of(self.start.as_str());
        push_str(&mut range, "..");
        push_str(&mut range, self.end.as_str());
        r.push(string_of(&range));
        if self.reverse {
            r.push(owned("--reverse"));
        }
        if self.prevent_merges {
            r.push(owned("--no-merges"));
        }
        if self.with_parents {
            r.push(owned("--parents"));
        }
        match &self.exclude {
            Some(e) => {
                let mut a = chars_of("^");
                push_str(&mut a, e.as_str());
                proof {
                    reveal_strlit("^");
                }
                assert(a@ =~= seq!['^'] + e@);
                r.push(string_of(&a));
            },
            None => {},
        }
        if self.dirs.len() > 0 {
            r.push(owned("--"));
        }
        let ghost head = views(r@);
        let mut i: usize = 0;
        while i < self.dirs.len()
            invariant
                i <= self.dirs.len(),
                views(r@) == head + views(self.dirs@.subrange(0, i as int)),
            decreases self.dirs.len() - i,
        {
            let ghost before = r@;
            r.push(self.dirs[i].clone());
            assert(views(r@) =~= views(before).push(self.dirs@[i as int]@));
            assert(views(self.dirs@.subrange(0, i + 1)) =~= views(
                self.dirs@.subrange(0, i as int),
            ).push(self.dirs@[i as int]@));
            assert(views(r@) =~= head + views(self.dirs@.subrange(0, i + 1)));
            i = i + 1;
        }
        assert(self.dirs@.subrange(0, self.dirs.len() as int) == self.dirs@);
        assert(views(r@) =~= self.spec_args());
        r
    }
}

} // verus!
