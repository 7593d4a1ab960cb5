//! Diagnostic codes, example contexts and ANSI stripping.
pub mod test_helpers;
pub mod type_helpers;
