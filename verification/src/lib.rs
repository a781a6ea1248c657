//! A document store that keeps its documents as files inside a
//! version-control working tree: every write becomes a commit, so the
//! full history of every document is retained.
//!
//! The store is addressed by (collection, id) pairs: a collection is a
//! direct subdirectory of the store root, and a document is a single
//! file `<collection>/<id>.json` inside it.

pub mod errors;
pub mod names;
pub mod ids;
pub mod vcs;
pub mod db;
pub mod laws;
