//! Configuration of the analyzers.

pub mod settings;
pub mod files;
