//! Resolution of the `#[env(...)]` annotations of one struct field into the
//! configuration by which that field is populated from the environment.
//!
//! The syntax trees come from `syn` and are read through the trusted
//! functions of [`syntax`]; the rules that decide what a field's annotations
//! mean are verified.
pub mod annotations;
pub mod diagnostic;
pub mod field;
pub mod laws;
pub mod options;
pub mod parser;
pub mod resolve;
pub mod shape;
pub mod syntax;
