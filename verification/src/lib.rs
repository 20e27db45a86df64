//! Git worktree manager built on bare clones.
//!
//! The library holds the verified core of the tool: canonicalizing remote
//! repository URLs into a `{host, owner, repo}` triple, deriving worktree
//! directory names from branch names, resolving layered configuration with
//! defaults and tilde expansion, and computing the argument lists for the
//! external git invocations.  Process spawning, file I/O and the CLI live
//! outside the library.

pub mod clone_url;
pub mod config;
pub mod error;
pub mod naming;
pub mod repo_url;
pub mod text;
pub mod worktree;
