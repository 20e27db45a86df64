//! The error taxonomy of the tool.
//!
//! Each variant carries what the message needs as a plain `String`; the
//! rendered message is given by [`GhbareError::message`], whose exact text is
//! pinned by [`GhbareError::spec_message`].

use vstd::prelude::*;
use vstd::string::StringExecFns;

verus! {

/// Every failure the tool can report, one variant per error kind.
#[derive(Debug)]
pub enum GhbareError {
    /// The input string could not be parsed as a repository URL; carries the
    /// offending input.
    UrlParseError(String),
    /// The global config file is missing; carries the explanation.
    ConfigNotFound(String),
    /// The global or per-repository config file did not parse; carries the
    /// reason.
    ConfigParseError(String),
    /// The `EDITOR` environment variable is not set.
    EditorNotFound,
    /// The clone of the remote repository failed; carries the reason.
    CloneError(String),
    /// The configured post-clone commands exited with failure.
    PostCloneCommandError(String),
    /// The target project directory already exists; carries its path.
    RepositoryAlreadyExists(String),
    /// No ancestor of the working directory contains a `.bare` directory.
    RepoRootNotFound,
    /// A worktree operation (add, list, remove, prune) failed; carries the
    /// reason.
    WorktreeError(String),
    /// The worktree directory already exists; carries its path.
    WorktreeAlreadyExists(String),
    /// An input/output failure outside the cases above; carries the reason.
    IoError(String),
}

impl GhbareError {
    /// The rendered error message, kind prefix included.
    pub open spec fn spec_message(&self) -> Seq<char> {
        match self {
            GhbareError::UrlParseError(s) => "Failed to parse repository URL: "@ + s@,
            GhbareError::ConfigNotFound(s) => "Config not found: "@ + s@,
            GhbareError::ConfigParseError(s) => "Failed to parse config: "@ + s@,
            GhbareError::EditorNotFound => "$EDITOR environment variable is not set"@,
            GhbareError::CloneError(s) => "Clone failed: "@ + s@,
            GhbareError::PostCloneCommandError(s) => "Post clone command failed: "@ + s@,
            GhbareError::RepositoryAlreadyExists(s) => "Repository already exists: "@ + s@,
            GhbareError::RepoRootNotFound => "Repository root not found (no .bare directory)"@,
            GhbareError::WorktreeError(s) => "Worktree operation failed: "@ + s@,
            GhbareError::WorktreeAlreadyExists(s) => "Worktree already exists: "@ + s@,
            GhbareError::IoError(s) => "IO error: "@ + s@,
        }
    }

    /// Render the message the tool prints for this error.
    pub fn message(&self) -> (r: String)
        ensures
            r@ == self.spec_message(),
    {
        let mut out = String::new();
        match self {
            GhbareError::UrlParseError(s) => {
                out.append("Failed to parse repository URL: ");
                out.append(s.as_str());
            },
            GhbareError::ConfigNotFound(s) => {
                out.append("Config not found: ");
                out.append(s.as_str());
            },
            GhbareError::ConfigParseError(s) => {
                out.append("Failed to parse config: ");
                out.append(s.as_str());
            },
            GhbareError::EditorNotFound => {
                out.append("$EDITOR environment variable is not set");
            },
            GhbareError::CloneError(s) => {
                out.append("Clone failed: ");
                out.append(s.as_str());
            },
            GhbareError::PostCloneCommandError(s) => {
                out.append("Post clone command failed: ");
                out.append(s.as_str());
            },
            GhbareError::RepositoryAlreadyExists(s) => {
                out.append("Repository already exists: ");
                out.append(s.as_str());
            },
            GhbareError::RepoRootNotFound => {
                out.append("Repository root not found (no .bare directory)");
            },
            GhbareError::WorktreeError(s) => {
                out.append("Worktree operation failed: ");
                out.append(s.as_str());
            },
            GhbareError::WorktreeAlreadyExists(s) => {
                out.append("Worktree already exists: ");
                out.append(s.as_str());
            },
            GhbareError::IoError(s) => {
                out.append("IO error: ");
                out.append(s.as_str());
            },
        }
        proof {
            assert(out@ =~= self.spec_message());
        }
        out
    }
}

} // verus!
