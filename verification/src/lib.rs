//! Merge-time symbol resolution for a module bundler.
//!
//! Given a dependency's parsed, hygiene-annotated body and the bindings an
//! importer requests from it, the passes here rewrite the body so that it can be
//! placed in one flat scope with the importer: exported bindings become plain
//! variables under the dependency's export context, export wrappers are
//! stripped, and import and re-export statements that name the inlined module
//! are replaced by the variables that stand for them.

pub mod ast;
pub mod forward;
pub mod hoist;
pub mod hygiene;
pub mod inject;
pub mod laws;
pub mod merge;
pub mod outside;
pub mod rewrite;
pub mod scope;
pub mod seqs;
pub mod unexport;
