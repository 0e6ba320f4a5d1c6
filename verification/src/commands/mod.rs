//! The commands of the `baler` command line.

pub mod compile;
pub mod install;
