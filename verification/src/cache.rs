//! Memoized resolution: one single-initialization cell per artifact.
//!
//! A cell computes the resolution of its artifact at most once; every later
//! read returns the same bytes without recomputation.  The cache counts how
//! often the resolution step ran, so that at-most-once computation is both
//! stated in contracts and observable by callers.

use vstd::prelude::*;
use crate::artifacts::ArtifactSet;
use crate::artifacts::ArtifactSetView;
use crate::artifacts::resolve_all_spec;
use crate::resolve::clone_bytes;
use crate::resolve::resolve;
use crate::resolve::resolve_spec;

verus! {

/// One memoized cell: the resolved bytes of a single artifact, once
/// computed, and the number of times the resolution step ran for it.
pub struct CachedCell {
    value: Option<Vec<u8>>,
    resolutions: u64,
}

impl CachedCell {
    /// The resolution step has run exactly once if the cell is filled and
    /// never otherwise.
    pub closed spec fn wf(self) -> bool {
        self.resolutions == if self.value is Some {
            1int
        } else {
            0int
        }
    }

    /// The resolved bytes the cell holds, if it has been filled.
    pub closed spec fn contents(self) -> Option<Seq<u8>> {
        match self.value {
            Some(v) => Some(v@),
            None => None,
        }
    }

    /// How often the resolution step ran for this cell.
    pub closed spec fn resolution_count(self) -> int {
        self.resolutions as int
    }

    /// Whatever the cell holds is the resolution of `raw`.  An empty cell is
    /// consistent with any artifact.
    pub open spec fn consistent_with(self, raw: Seq<u8>) -> bool {
        self.contents() matches Some(c) ==> c == resolve_spec(raw)
    }

    /// A fresh, empty cell.
    pub fn new() -> (c: Self)
        ensures
            c.wf(),
            c.contents() is None,
            c.resolution_count() == 0,
    {
        CachedCell { value: None, resolutions: 0 }
    }

    /// The resolved bytes of `raw`: from the cell where it is filled,
    /// computed and retained otherwise.  A filled cell is left untouched, so
    /// the resolution step runs at most once over the cell's lifetime.
    pub fn get_or_resolve(&mut self, raw: &Vec<u8>) -> (r: Vec<u8>)
        requires
            old(self).wf(),
            old(self).consistent_with(raw@),
        ensures
            final(self).wf(),
            r@ == resolve_spec(raw@),
            final(self).contents() == Some(resolve_spec(raw@)),
            final(self).resolution_count() == 1,
            old(self).contents() is Some ==> *final(self) == *old(self),
    {
        if let Some(v) = &self.value {
            return clone_bytes(v);
        }
        let computed = resolve(raw);
        let r = clone_bytes(&computed);
        self.value = Some(computed);
        self.resolutions = 1;
        r
    }
}

/// The process-wide memoized state behind the cached loading path: one cell
/// per artifact kind.
pub struct DictionaryCache {
    trie_da: CachedCell,
    trie_vals: CachedCell,
    words_idx: CachedCell,
    words: CachedCell,
    matrix: CachedCell,
    char_def: CachedCell,
    unknown: CachedCell,
}

impl DictionaryCache {
    /// Every cell is well formed.
    pub closed spec fn wf(self) -> bool {
        &&& self.trie_da.wf()
        &&& self.trie_vals.wf()
        &&& self.words_idx.wf()
        &&& self.words.wf()
        &&& self.matrix.wf()
        &&& self.char_def.wf()
        &&& self.unknown.wf()
    }

    /// Whatever the cells hold are the resolutions of these artifacts.
    pub closed spec fn consistent_with(self, raw: ArtifactSetView) -> bool {
        &&& self.trie_da.consistent_with(raw.trie_da)
        &&& self.trie_vals.consistent_with(raw.trie_vals)
        &&& self.words_idx.consistent_with(raw.words_idx)
        &&& self.words.consistent_with(raw.words)
        &&& self.matrix.consistent_with(raw.matrix)
        &&& self.char_def.consistent_with(raw.char_def)
        &&& self.unknown.consistent_with(raw.unknown)
    }

    /// Every cell has been filled.
    pub closed spec fn fully_populated(self) -> bool {
        &&& self.trie_da.contents() is Some
        &&& self.trie_vals.contents() is Some
        &&& self.words_idx.contents() is Some
        &&& self.words.contents() is Some
        &&& self.matrix.contents() is Some
        &&& self.char_def.contents() is Some
        &&& self.unknown.contents() is Some
    }

    /// How often the resolution step ran, over all cells.
    pub closed spec fn total_resolutions(self) -> int {
        self.trie_da.resolution_count() + self.trie_vals.resolution_count()
            + self.words_idx.resolution_count() + self.words.resolution_count()
            + self.matrix.resolution_count() + self.char_def.resolution_count()
            + self.unknown.resolution_count()
    }

    /// A fresh cache with every cell empty.  It is consistent with any
    /// artifact set, and nothing has been computed yet.
    pub fn new() -> (c: Self)
        ensures
            c.wf(),
            c.total_resolutions() == 0,
            forall|raw: ArtifactSetView| c.consistent_with(raw),
    {
        DictionaryCache {
            trie_da: CachedCell::new(),
            trie_vals: CachedCell::new(),
            words_idx: CachedCell::new(),
            words: CachedCell::new(),
            matrix: CachedCell::new(),
            char_def: CachedCell::new(),
            unknown: CachedCell::new(),
        }
    }

    /// How often the resolution step ran, over all cells.
    pub fn resolution_count(&self) -> (n: u64)
        requires
            self.wf(),
        ensures
            n == self.total_resolutions(),
    {
        self.trie_da.resolutions + self.trie_vals.resolutions + self.words_idx.resolutions
            + self.words.resolutions + self.matrix.resolutions + self.char_def.resolutions
            + self.unknown.resolutions
    }

    /// The resolutions of all seven artifacts, each taken from its cell or
    /// computed once and retained.  A fully populated cache is left
    /// untouched, so each artifact's resolution step runs at most once over
    /// the cache's lifetime — and never more than seven times in all.
    pub fn resolve_artifacts(&mut self, raw: &ArtifactSet) -> (r: ArtifactSet)
        requires
            old(self).wf(),
            old(self).consistent_with(raw@),
        ensures
            final(self).wf(),
            final(self).consistent_with(raw@),
            final(self).fully_populated(),
            final(self).total_resolutions() == 7,
            r@ == resolve_all_spec(raw@),
            old(self).fully_populated() ==> *final(self) == *old(self),
    {
        ArtifactSet {
            trie_da: self.trie_da.get_or_resolve(&raw.trie_da),
            trie_vals: self.trie_vals.get_or_resolve(&raw.trie_vals),
            words_idx: self.words_idx.get_or_resolve(&raw.words_idx),
            words: self.words.get_or_resolve(&raw.words),
            matrix: self.matrix.get_or_resolve(&raw.matrix),
            char_def: self.char_def.get_or_resolve(&raw.char_def),
            unknown: self.unknown.get_or_resolve(&raw.unknown),
        }
    }
}

} // verus!
