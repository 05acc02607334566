//! The seven named binary artifacts behind the dictionary, as one record.
//!
//! An `ArtifactSet` holds raw bytes as supplied by a resource provider
//! (compile-time embedding, a file bundle, a test harness); the same record
//! shape also carries the bytes after resolution, since resolution maps each
//! artifact independently.

use vstd::prelude::*;
use crate::resolve::resolve;
use crate::resolve::resolve_spec;

verus! {

/// The seven artifact byte sequences, as a mathematical value.
pub struct ArtifactSetView {
    /// Trie index (double-array) bytes.
    pub trie_da: Seq<u8>,
    /// Trie value table bytes.
    pub trie_vals: Seq<u8>,
    /// Word index bytes.
    pub words_idx: Seq<u8>,
    /// Word surface table bytes.
    pub words: Seq<u8>,
    /// Connection-cost matrix bytes.
    pub matrix: Seq<u8>,
    /// Character-definition table bytes.
    pub char_def: Seq<u8>,
    /// Unknown-word table bytes.
    pub unknown: Seq<u8>,
}

/// The seven artifact byte sequences.  The metadata record travels beside an
/// `ArtifactSet`, not in it: it uses a distinct encoding and is never wrapped
/// in a compressed container.
pub struct ArtifactSet {
    /// Trie index (double-array) bytes.
    pub trie_da: Vec<u8>,
    /// Trie value table bytes.
    pub trie_vals: Vec<u8>,
    /// Word index bytes.
    pub words_idx: Vec<u8>,
    /// Word surface table bytes.
    pub words: Vec<u8>,
    /// Connection-cost matrix bytes.
    pub matrix: Vec<u8>,
    /// Character-definition table bytes.
    pub char_def: Vec<u8>,
    /// Unknown-word table bytes.
    pub unknown: Vec<u8>,
}

impl View for ArtifactSet {
    type V = ArtifactSetView;

    open spec fn view(&self) -> ArtifactSetView {
        ArtifactSetView {
            trie_da: self.trie_da@,
            trie_vals: self.trie_vals@,
            words_idx: self.words_idx@,
            words: self.words@,
            matrix: self.matrix@,
            char_def: self.char_def@,
            unknown: self.unknown@,
        }
    }
}

/// Seven zero-length artifacts: what a build with resource embedding
/// disabled supplies.
pub open spec fn empty_artifact_set() -> ArtifactSetView {
    ArtifactSetView {
        trie_da: Seq::empty(),
        trie_vals: Seq::empty(),
        words_idx: Seq::empty(),
        words: Seq::empty(),
        matrix: Seq::empty(),
        char_def: Seq::empty(),
        unknown: Seq::empty(),
    }
}

/// Each of the seven artifacts after resolution.
pub open spec fn resolve_all_spec(raw: ArtifactSetView) -> ArtifactSetView {
    ArtifactSetView {
        trie_da: resolve_spec(raw.trie_da),
        trie_vals: resolve_spec(raw.trie_vals),
        words_idx: resolve_spec(raw.words_idx),
        words: resolve_spec(raw.words),
        matrix: resolve_spec(raw.matrix),
        char_def: resolve_spec(raw.char_def),
        unknown: resolve_spec(raw.unknown),
    }
}

/// Resolve each of the seven artifacts, independently.
pub fn resolve_all(raw: &ArtifactSet) -> (r: ArtifactSet)
    ensures
        r@ == resolve_all_spec(raw@),
{
    ArtifactSet {
        trie_da: resolve(&raw.trie_da),
        trie_vals: resolve(&raw.trie_vals),
        words_idx: resolve(&raw.words_idx),
        words: resolve(&raw.words),
        matrix: resolve(&raw.matrix),
        char_def: resolve(&raw.char_def),
        unknown: resolve(&raw.unknown),
    }
}

} // verus!
