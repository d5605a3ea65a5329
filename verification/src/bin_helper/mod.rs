//! What the command line program decides before it reads or prints.

/// The command line and its arguments.
pub mod cli;
/// What the program reports in place of a conversion.
pub mod status;
