//! Helpers around the file system.

pub mod paths;
