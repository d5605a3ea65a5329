//! The conversion engine.

/// What the standard library offers on characters and strings.
pub mod text;
/// Internal state for parsing and casifying.
pub mod char_type;
/// Defines the [`Caseify`] trait to transform an input to the wanted case.
pub mod caseify;
/// Defines the [`Case`] struct to list the supported cases.
pub mod case;
