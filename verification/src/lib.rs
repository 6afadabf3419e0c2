//! Error reporting and exit-status handling for the `kakasi` command line,
//! and what the `new` command puts into a fresh project.

pub mod cli;
pub mod commands;
pub mod util;
