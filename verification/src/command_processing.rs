//! The command handlers' decisions and texts.

pub mod review;
pub mod commit;
