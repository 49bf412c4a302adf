//! gitie: Git with AI assistance.
//!
//! The verified core of the tool: command-line flag handling, diff parsing,
//! code-review rules, change classification and report formatting.

pub mod nops;
pub mod text;
pub mod keyed;
pub mod tree_sitter_analyzer;
pub mod cli_interface;
pub mod errors;
pub mod ai_utils;
pub mod config_management;
pub mod review_engine;
pub mod tallies;
pub mod explainer;
pub mod command_processing;
pub mod git_module;
pub mod git_types;
pub mod dispatch;
