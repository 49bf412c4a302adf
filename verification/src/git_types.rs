//! Plain records of Git data: commits, file states, operations and
//! configuration entries.

use vstd::prelude::*;

verus! {

/// A Git commit.
#[derive(Debug, Clone)]
pub struct GitCommit {
    /// The commit hash.
    pub hash: String,
    /// The commit message.
    pub message: String,
    /// The author's name.
    pub author: String,
    /// The author's e-mail address.
    pub email: String,
    /// The commit date (ISO 8601, `YYYY-MM-DD HH:MM:SS`).
    pub date: String,
}

/// The state of one file in a Git repository.
#[derive(Debug, Clone)]
pub struct GitFileStatus {
    /// Path to the file.
    pub path: String,
    /// Status code (`A` added, `M` modified, `D` deleted, ...).
    pub status_code: String,
}

/// The states of the files of a repository.
#[derive(Debug)]
pub struct GitStatus {
    /// Files staged for commit.
    pub staged: Vec<GitFileStatus>,
    /// Files modified but not staged.
    pub modified: Vec<GitFileStatus>,
    /// Untracked files.
    pub untracked: Vec<String>,
    /// The current branch, if any.
    pub current_branch: Option<String>,
}

impl Default for GitStatus {
    fn default() -> (res: Self)
        ensures
            res.staged@.len() == 0,
            res.modified@.len() == 0,
            res.untracked@.len() == 0,
            res.current_branch is None,
    {
        GitStatus { staged: Vec::new(), modified: Vec::new(), untracked: Vec::new(), current_branch: None }
    }
}

/// A kind of Git operation.
#[derive(Debug, Clone)]
pub enum GitOperation {
    Commit,
    Push,
    Pull,
    /// A fetch.
    Get,
    Merge,
    Rebase,
    Checkout,
    Branch,
    /// Any other operation, by name.
    Other(String),
}

/// One entry of the Git configuration.
#[derive(Debug, Clone)]
pub struct GitConfigEntry {
    /// The section, such as `user` or `core`.
    pub section: String,
    /// The key.
    pub key: String,
    /// The value.
    pub value: String,
}

/// Parsed Git configuration.
#[derive(Debug)]
pub struct GitConfig {
    /// Each `section.key` with its value.
    pub entries: Vec<(String, String)>,
    /// Each section with its keys and values.
    pub section: Vec<(String, Vec<(String, String)>)>,
}

impl Default for GitConfig {
    fn default() -> (res: Self)
        ensures
            res.entries@.len() == 0,
            res.section@.len() == 0,
    {
        GitConfig { entries: Vec::new(), section: Vec::new() }
    }
}

} // verus!
