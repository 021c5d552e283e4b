//! Synchronous, path-addressed helpers over a git repository: handle
//! resolution, configuration lookup, untracked-file policy, head resolution
//! and staging-area mutation.
//!
//! All repository access goes through the `git2` crate; the calls into it
//! stand behind the trusted declarations in the `git` module, and everything
//! around them is verified.

pub mod config;
pub mod error;
pub mod git;
pub mod ids;
pub mod utils;
