//! An HTML parsing engine: a character-driven tokenizer, a quirks-mode
//! classifier, and an insertion-mode tree builder that together turn markup
//! text into a document tree plus a list of parse errors. Malformed markup
//! is the normal case: every error has one prescribed recovery, and parsing
//! never panics.
//!
//! Beside the engine stand a serializer for the resulting tree, a small
//! parser over CSS token streams, and the integer-valued corner of the
//! render-backend interface that consumes the tree.

pub mod css3;
pub mod dom;
pub mod entities;
pub mod parser;
pub mod quirks;
pub mod render;
pub mod serialize;
pub mod text;
pub mod tokenizer;
pub mod tokens;
pub mod treebuilder;
