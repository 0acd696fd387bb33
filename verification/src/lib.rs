//! A single-line shell prompt fragment: the current working directory
//! (optionally tilde-collapsed and shortened), a version-control status
//! indicator, and a privilege-sensitive prompt character.
//!
//! The core is the repository status summarizer: it reduces a repository's
//! file status table to a single three-valued indicator, and resolves the
//! current reference to a branch or detached-commit label.

pub mod config;
pub mod cwd;
pub mod privilege;
pub mod prompt;
pub mod status;
pub mod style;
pub mod text;
pub mod vcs;
