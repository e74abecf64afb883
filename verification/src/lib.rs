//! The semantic-indexing core of a language server for Sway.
//!
//! A session owns the open documents, the manifest of the project, and the
//! published token index and diagnostics. A reparse builds the next
//! generation of the index from the syntactic tree and the typed tree of the
//! project, one entry for each occurrence of an identifier, and publishes it
//! whole. The compiler runs outside the library; what it returns comes in as
//! plain trees and findings.
//!
//! Beside the core stand the parser of tuple expressions and the rules by
//! which the IR of a test file is checked against the directives in it.

pub mod diagnostic;
pub mod document;
pub mod error;
pub mod expr_tuple;
pub mod ident;
pub mod ir_checks;
pub mod manifest;
pub mod parse_entries;
pub mod parse_tree;
pub mod paths;
pub mod session;
pub mod token;
pub mod traverse_parse_tree;
pub mod traverse_typed_tree;
pub mod typed_entries;
pub mod typed_tree;
