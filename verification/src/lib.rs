//! Conversion of strings between naming conventions: `camelCase`,
//! `PascalCase`, `snake_case`, `kebab-case`, `dot.case`, `CONSTANT_CASE`,
//! `Capitalised Case` and `Sentence case`.
//!
//! Word boundaries are inferred from the categories of neighbouring
//! characters, so the convention of the input does not matter.

pub mod bin_helper;
pub mod cli;
pub mod parser;

pub use crate::parser::case::Case;
pub use crate::parser::caseify::Caseify;
pub use crate::parser::char_type::CharType;
