//! Archive formats.

pub mod tar;
