//! Structural analysis of Git diffs.
//!
//! The submodules hold the diff model (`model`), the diff parsers
//! (`parse_utils`, `simple_diff`, `analyzer_diff`), the syntax nodes a
//! parser hands over (`syntax`), the language-specific analyses (`java`,
//! `java_syntax`, `java_project`, `rust`), and the analyses of files and
//! whole diffs built on them.

pub mod model;
pub mod parse_utils;
pub mod analyzer;
pub mod diff_analysis;
pub mod analyzer_diff;
pub mod simple_diff;
pub mod file_changes;
pub mod java;
pub mod java_project;
pub mod rust;
pub mod commit_prompt;
pub mod setup;
pub mod structure;
pub mod syntax;
pub mod java_syntax;
pub mod grammars;
pub mod syntax_trees;
