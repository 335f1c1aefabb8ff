//! Provisioning of an isolated Python environment.
//!
//! The library decides which commands to run (environment creation, a
//! bootstrap install, and a package sync) and in what order; a thin driver
//! outside the library performs the filesystem probe and the subprocess
//! calls and feeds their outcomes back in.

pub mod laws;
pub mod machine;
pub mod plan;
