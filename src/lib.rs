//! Forwards a fork's commits into an upstream patch-staging branch: finds the
//! last forwarded commit by its title marker, lists what is left to forward,
//! replays each commit with a build and a test, and renders a report.

pub mod clog;
pub mod git;
pub mod github;
pub mod make;
pub mod migration;
pub mod parser;
pub mod publish;
pub mod text;
pub mod upstream;
