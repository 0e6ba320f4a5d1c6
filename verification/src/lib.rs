//! Bundling and installation logic for box modules managed by baler.

pub mod baler_toml;
pub mod cli;
pub mod commands;
pub mod formats;
pub mod ops;
pub mod paths;
pub mod text;
