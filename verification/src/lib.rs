//! Resource resolution and assembly for an embedded morphological dictionary.
//!
//! Seven named binary artifacts (trie index, trie values, word index, word
//! surface table, connection-cost matrix, character-definition table,
//! unknown-word table) plus one metadata record are combined into a single
//! `Dictionary` aggregate.  Each artifact may arrive either raw or wrapped in
//! a self-describing compressed container; resolution is transparent to the
//! caller and falls back to the raw bytes when the container cannot be
//! recognised or unpacked.

pub mod artifacts;
pub mod assembly;
pub mod cache;
pub mod components;
pub mod loader;
pub mod resolve;
pub mod source_format;
