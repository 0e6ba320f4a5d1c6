//! The operations behind baler's commands.

pub mod bundle;
pub mod compile;
pub mod github;
pub mod install;
pub mod module_graph;
pub mod native;
