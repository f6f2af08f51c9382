//! Command lines for the build tool.

use vstd::prelude::*;

use crate::text::{chars_of, decimal, owned, push_decimal, string_of, views};

verus! {

/// `[-C <directory>] [-j<jobs>] [-l<load>] <recipe>...`.
pub struct Make {
    pub directory: Option<String>,
    pub jobs: Option<usize>,
    pub load: Option<usize>,
    pub recipes: Vec<String>,
}

/// A build of the default recipe in the current directory.
pub fn new() -> (r: Make)
    ensures
        r.directory is None,
        r.jobs is None,
        r.load is None,
        r.recipes@.len() == 0,
{
    Make { directory: None, jobs: None, load: None, recipes: Vec::new() }
}

/// `flag` followed by the decimal notation of `n`.
fn numbered_flag(flag: &str, n: usize) -> (r: String)
    ensures
        r@ == flag@ + decimal(n as nat),
{
    let mut a = chars_of(flag);
    push_decimal(&mut a, n as u64);
    string_of(&a)
}

impl Make {
    /// Builds in `dir`.
    pub fn directory(self, dir: &str) -> (r: Make)
        ensures
            r.directory is Some,
            r.directory->0@ == dir@,
            r.jobs == self.jobs,
            r.load == self.load,
            r.recipes == self.recipes,
    {
        Make { directory: Some(owned(dir)), ..self }
    }

    /// Runs up to `jobs` jobs at once.
    pub fn jobs(self, jobs: usize) -> (r: Make)
        ensures
            r.directory == self.directory,
            r.jobs == Some(jobs),
            r.load == self.load,
            r.recipes == self.recipes,
    {
        Make { jobs: Some(jobs), ..self }
    }

    /// Starts no new job while the load average is `load` or more.
    pub fn load(self, load: usize) -> (r: Make)
        ensures
            r.directory == self.directory,
            r.jobs == self.jobs,
            r.load == Some(load),
            r.recipes == self.recipes,
    {
        Make { load: Some(load), ..self }
    }

    /// Adds a recipe to build.
    pub fn recipe(self, recipe: &str) -> (r: Make)
        ensures
            r.directory == self.directory,
            r.jobs == self.jobs,
            r.load == self.load,
            views(r.recipes@) == views(self.recipes@).push(recipe@),
    {
        let mut recipes = self.recipes;
        recipes.push(owned(recipe));
        assert(views(recipes@) =~= views(self.recipes@).push(recipe@));
        Make { recipes, ..self }
    }

    /// The arguments of this command.
    pub open spec fn spec_args(&self) -> Seq<Seq<char>> {
        (match self.directory {
            Some(d) => seq!["-C"@, d@],
            None => seq![],
        }) + match self.jobs {
            Some(j) => seq!["-j"@ + decimal(j as nat)],
            None => seq![],
        } + match self.load {
            Some(l) => seq!["-l"@ + decimal(l as nat)],
            None => seq![],
        } + views(self.recipes@)
    }

    /// The arguments that follow the tool's name.
    pub fn args(&self) -> (r: Vec<String>)
        ensures
            views(r@) == self.spec_args(),
    {
        let mut r: Vec<String> = Vec::new();
        match &self.directory {
            Some(d) => {
                r.push(owned("-C"));
                r.push(d.clone());
            },
            None => {},
        }
        match self.jobs {
            Some(j) => r.push(numbered_flag("-j", j)),
            None => {},
        }
        match self.load {
            Some(l) => r.push(numbered_flag("-l", l)),
            None => {},
        }
        let ghost head = views(r@);
        let mut i: usize = 0;
        while i < self.recipes.len()
            invariant
                i <= self.recipes.len(),
                views(r@) == head + views(self.recipes@.subrange(0, i as int)),
            decreases self.recipes.len() - i,
        {
            let ghost before = r@;
            r.push(self.recipes[i].clone());
            assert(views(r@) =~= views(before).push(self.recipes@[i as int]@));
            assert(views(self.recipes@.subrange(0, i + 1)) =~= views(
                self.recipes@.subrange(0, i as int),
            ).push(self.recipes@[i as int]@));
            assert(views(r@) =~= head + views(self.recipes@.subrange(0, i + 1)));
            i = i + 1;
        }
        assert(self.recipes@.subrange(0, self.recipes.len() as int) == self.recipes@);
        assert(views(r@) =~= self.spec_args());
        r
    }
}

} // verus!
