//! Error taxonomy of a parsing subsystem, with the builders of its
//! diagnostic messages.

pub mod decimal;
pub mod diagnostics;
pub mod error;
