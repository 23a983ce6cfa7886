//! Static analysis of SQL migration files: a registry of pure checks over
//! statement trees, a resolver for `safety-assured` blocks, and the decoding
//! of custom check script results.

/// The statement tree that the checks read.
pub mod tree;
/// Findings.
pub mod violation;
/// Run configuration.
pub mod config;

/// Text utilities and the texts of findings.
pub mod text;
pub mod messages;

/// Tree navigation and the built-in checks.
pub mod helpers;
pub mod checks;

/// Ignore ranges and statement positions.
pub mod ignore;
/// Script results.
pub mod scripting;
/// The ordered set of active checks and the entry point.
pub mod registry;

/// Regular expressions and case mapping taken from outside.
pub mod patterns;
/// Text-level statement detectors.
pub mod detectors;
/// Migration naming conventions.
pub mod migrations;
/// Positions in parser error messages.
pub mod parse_errors;

/// Properties that relate several calls or hold of every input.
pub mod laws;
