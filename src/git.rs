//! Command lines for the version-control tool, one builder per subcommand.
//! Each builder holds plain configuration and computes the argument list that
//! follows the tool's name; running it is left to the caller.

use vstd::prelude::*;

pub mod branch;
pub mod cherry_pick;
pub mod commit;
pub mod diff_tree;
pub mod fetch;
pub mod log;
pub mod push;
pub mod rev_list;
pub mod switch;

pub use branch::{branch, StartingPoint};
pub use cherry_pick::cherry_pick;
pub use commit::commit;
pub use diff_tree::diff_tree;
pub use fetch::fetch;
pub use log::log;
pub use push::push;
pub use rev_list::rev_list;
pub use switch::switch;

verus! {

/// What `log` prints for each commit.
#[derive(Clone, Copy, Debug, PartialEq, Eq, Structural)]
pub enum Format {
    Hash,
    Title,
    Body,
}

/// The placeholder that makes `log` print a format.
pub open spec fn format_code(f: Format) -> Seq<char> {
    match f {
        Format::Hash => "%h"@,
        Format::Title => "%s"@,
        Format::Body => "%B"@,
    }
}

impl Format {
    /// The placeholder for this format.
    pub fn as_str(&self) -> (r: &'static str)
        ensures
            r@ == format_code(*self),
    {
        match self {
            Format::Hash => "%h",
            Format::Title => "%s",
            Format::Body => "%B",
        }
    }
}

/// A branch name.
pub struct Branch<T>(pub T);

/// A commit identifier.
pub struct Commit<T>(pub T);

/// A remote name.
pub struct Remote<T>(pub T);

} // verus!
