//! Command-line interface: argument model and flag handling.

pub mod args;
