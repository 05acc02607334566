//! The two loading paths.
//!
//! `load` memoizes each artifact's resolution in a caller-owned cache and
//! assembles the dictionary from the cached bytes; `load_temporary` resolves
//! afresh on every call and retains nothing.  Both run the same resolution
//! and assembly sequence, so they agree on every input
//! (`lemma_load_paths_agree`).  `EmbeddedIPADICLoader` bundles a resource
//! set with its own cache behind both paths.

use vstd::prelude::*;
use crate::artifacts::ArtifactSet;
use crate::artifacts::ArtifactSetView;
use crate::artifacts::empty_artifact_set;
use crate::artifacts::resolve_all;
use crate::artifacts::resolve_all_spec;
use crate::assembly::Dictionary;
use crate::assembly::LoadError;
use crate::assembly::assemble;
use crate::assembly::assembles_to;
use crate::cache::DictionaryCache;

verus! {

/// What either loading path returns for these raw artifacts and this
/// metadata record: every artifact is resolved, then the dictionary is
/// assembled from the resolved bytes.
pub open spec fn loads_to(
    raw: ArtifactSetView,
    metadata: Seq<u8>,
    r: Result<Dictionary, LoadError>,
) -> bool {
    assembles_to(resolve_all_spec(raw), metadata, r)
}

/// The cached path: take each artifact's resolution from the cache, filling
/// empty cells once, and assemble the dictionary from the cached bytes.
/// A call on a fully populated cache recomputes nothing and leaves the
/// cache untouched.
pub fn load(cache: &mut DictionaryCache, artifacts: &ArtifactSet, metadata: &Vec<u8>) -> (r: Result<
    Dictionary,
    LoadError,
>)
    requires
        old(cache).wf(),
        old(cache).consistent_with(artifacts@),
    ensures
        final(cache).wf(),
        final(cache).consistent_with(artifacts@),
        final(cache).fully_populated(),
        final(cache).total_resolutions() == 7,
        old(cache).fully_populated() ==> *final(cache) == *old(cache),
        loads_to(artifacts@, metadata@, r),
{
    let resolved = cache.resolve_artifacts(artifacts);
    assemble(resolved, metadata)
}

/// The ephemeral path: resolve every artifact afresh and assemble, with no
/// retained state.  The same resolution and assembly sequence as `load`.
pub fn load_temporary(artifacts: &ArtifactSet, metadata: &Vec<u8>) -> (r: Result<
    Dictionary,
    LoadError,
>)
    ensures
        loads_to(artifacts@, metadata@, r),
{
    let resolved = resolve_all(artifacts);
    assemble(resolved, metadata)
}

/// Equivalence of the two loading paths: on identical inputs they fail with
/// the same error or succeed with dictionaries built from identical
/// resolved bytes — they differ only in caching behaviour.
pub proof fn lemma_load_paths_agree(
    raw: ArtifactSetView,
    metadata: Seq<u8>,
    cached: Result<Dictionary, LoadError>,
    ephemeral: Result<Dictionary, LoadError>,
)
    requires
        loads_to(raw, metadata, cached),
        loads_to(raw, metadata, ephemeral),
    ensures
        cached is Ok <==> ephemeral is Ok,
        cached matches Ok(c) ==> (ephemeral matches Ok(e) && c@ == e@),
        cached is Err ==> cached == ephemeral,
{
}

/// A loader over an embedded resource set, with its own memoized cache.
pub struct EmbeddedIPADICLoader {
    artifacts: ArtifactSet,
    metadata: Vec<u8>,
    cache: DictionaryCache,
}

impl EmbeddedIPADICLoader {
    #[verifier::type_invariant]
    spec fn inv(self) -> bool {
        &&& self.cache.wf()
        &&& self.cache.consistent_with(self.artifacts@)
    }

    /// The raw artifact bytes this loader was built over.
    pub closed spec fn artifacts_view(self) -> ArtifactSetView {
        self.artifacts@
    }

    /// The metadata bytes this loader was built over.
    pub closed spec fn metadata_view(self) -> Seq<u8> {
        self.metadata@
    }

    /// How often the resolution step has run for this loader.
    pub closed spec fn resolutions(self) -> int {
        self.cache.total_resolutions()
    }

    /// Whether every artifact's resolution has been computed and retained.
    pub closed spec fn cache_populated(self) -> bool {
        self.cache.fully_populated()
    }

    /// A loader over zero-length placeholder artifacts: the degenerate
    /// configuration of a build with resource embedding disabled.
    pub fn new() -> (loader: Self)
        ensures
            loader.artifacts_view() == empty_artifact_set(),
            loader.metadata_view() == Seq::<u8>::empty(),
            loader.resolutions() == 0,
    {
        Self::with_resources(
            ArtifactSet {
                trie_da: Vec::new(),
                trie_vals: Vec::new(),
                words_idx: Vec::new(),
                words: Vec::new(),
                matrix: Vec::new(),
                char_def: Vec::new(),
                unknown: Vec::new(),
            },
            Vec::new(),
        )
    }

    /// A loader over the given resource bytes, however they were provided
    /// (compile-time embedding, a file bundle, a test harness).
    pub fn with_resources(artifacts: ArtifactSet, metadata: Vec<u8>) -> (loader: Self)
        ensures
            loader.artifacts_view() == artifacts@,
            loader.metadata_view() == metadata@,
            loader.resolutions() == 0,
    {
        EmbeddedIPADICLoader { artifacts, metadata, cache: DictionaryCache::new() }
    }

    /// The cached loading path over this loader's resources.  The first call
    /// fills the cache; later calls reuse it unchanged.
    pub fn load(&mut self) -> (r: Result<Dictionary, LoadError>)
        ensures
            loads_to(old(self).artifacts_view(), old(self).metadata_view(), r),
            final(self).artifacts_view() == old(self).artifacts_view(),
            final(self).metadata_view() == old(self).metadata_view(),
            final(self).cache_populated(),
            final(self).resolutions() == 7,
            old(self).cache_populated() ==> *final(self) == *old(self),
    {
        proof {
            use_type_invariant(&*self);
        }
        let mut cache = DictionaryCache::new();
        core::mem::swap(&mut cache, &mut self.cache);
        let r = crate::loader::load(&mut cache, &self.artifacts, &self.metadata);
        core::mem::swap(&mut cache, &mut self.cache);
        r
    }

    /// The ephemeral loading path over this loader's resources: resolves
    /// afresh, touches no cached state.
    pub fn load_temporary(&self) -> (r: Result<Dictionary, LoadError>)
        ensures
            loads_to(self.artifacts_view(), self.metadata_view(), r),
    {
        load_temporary(&self.artifacts, &self.metadata)
    }

    /// How often the resolution step has run for this loader: at most once
    /// per artifact, however many times `load` was called.
    pub fn resolution_count(&self) -> (n: u64)
        ensures
            n == self.resolutions(),
    {
        proof {
            use_type_invariant(&*self);
        }
        self.cache.resolution_count()
    }
}

impl Default for EmbeddedIPADICLoader {
    /// The same degenerate configuration as `new`.
    fn default() -> (loader: Self)
        ensures
            loader.artifacts_view() == empty_artifact_set(),
            loader.metadata_view() == Seq::<u8>::empty(),
            loader.resolutions() == 0,
    {
        Self::new()
    }
}

} // verus!
