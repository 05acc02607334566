//! End-to-end tests of the payload resolver, the two loading paths, the
//! memoized cache, and the error taxonomy, against the real outside crates.

use ipadic_embedded::artifacts::ArtifactSet;
use ipadic_embedded::assembly::Dictionary;
use ipadic_embedded::assembly::LoadError;
use ipadic_embedded::cache::DictionaryCache;
use ipadic_embedded::loader::EmbeddedIPADICLoader;
use ipadic_embedded::loader::load;
use ipadic_embedded::loader::load_temporary;
use ipadic_embedded::resolve::resolve;

use lindera_dictionary::compress::compress;
use lindera_dictionary::decompress::Algorithm;
use lindera_dictionary::decompress::CompressedData;
use lindera_dictionary::dictionary::character_definition::CharacterDefinition;
use lindera_dictionary::dictionary::character_definition::LookupTable;
use lindera_dictionary::dictionary::metadata::Metadata;
use lindera_dictionary::dictionary::unknown_dictionary::UnknownDictionary;

/// Wrap a payload in the self-describing compressed container format.
fn wrap_in_container(payload: &[u8]) -> Vec<u8> {
    let compressed = compress(payload, Algorithm::Deflate).expect("compression failed");
    rkyv::to_bytes::<rkyv::rancor::Error>(&compressed)
        .expect("container serialization failed")
        .to_vec()
}

fn valid_metadata_bytes() -> Vec<u8> {
    serde_json::to_vec(&Metadata::default()).expect("metadata serialization failed")
}

fn valid_char_def_bytes() -> Vec<u8> {
    let char_def = CharacterDefinition {
        category_definitions: vec![],
        category_names: vec!["DEFAULT".to_string()],
        mapping: LookupTable::from_fn(vec![0], &|_, _| {}),
    };
    rkyv::to_bytes::<rkyv::rancor::Error>(&char_def)
        .expect("character definition serialization failed")
        .to_vec()
}

fn valid_unknown_bytes() -> Vec<u8> {
    let unknown = UnknownDictionary {
        category_references: vec![vec![]],
        costs: vec![],
        words_idx_data: vec![7],
        words_data: vec![],
    };
    rkyv::to_bytes::<rkyv::rancor::Error>(&unknown)
        .expect("unknown dictionary serialization failed")
        .to_vec()
}

/// The smallest trie index layout the composition accepts: zero states,
/// zero outputs, one match-kind byte, a four-byte state total.
fn minimal_trie_bytes() -> Vec<u8> {
    vec![0; 13]
}

/// The smallest matrix layout the composition accepts: a leading -1 marking
/// the transposed format, then zero forward and backward sizes.
fn minimal_matrix_bytes() -> Vec<u8> {
    vec![0xff, 0xff, 0x00, 0x00, 0x00, 0x00]
}

fn valid_artifacts() -> ArtifactSet {
    ArtifactSet {
        trie_da: minimal_trie_bytes(),
        trie_vals: vec![1, 2, 3, 4],
        words_idx: vec![5, 6, 7, 8],
        words: vec![9, 10],
        matrix: minimal_matrix_bytes(),
        char_def: valid_char_def_bytes(),
        unknown: valid_unknown_bytes(),
    }
}

fn expect_err(r: Result<Dictionary, LoadError>) -> LoadError {
    match r {
        Err(e) => e,
        Ok(_) => panic!("expected loading to fail"),
    }
}

/// 4 KB of pseudo-random bytes from a fixed linear congruential generator.
fn pseudo_random_block() -> Vec<u8> {
    let mut state: u64 = 0x2545F4914F6CDD1D;
    let mut block = Vec::with_capacity(4096);
    for _ in 0..4096 {
        state = state.wrapping_mul(6364136223846793005).wrapping_add(1442695040888963407);
        block.push((state >> 33) as u8);
    }
    block
}

#[test]
fn resolve_returns_wrapped_payload() {
    let payload: Vec<u8> = (0u32..2000).map(|i| (i * 7 % 251) as u8).collect();
    let container = wrap_in_container(&payload);
    assert_ne!(container, payload);
    assert_eq!(resolve(&container), payload);
}

#[test]
fn resolve_returns_wrapped_empty_payload() {
    let container = wrap_in_container(&[]);
    assert_eq!(resolve(&container), Vec::<u8>::new());
}

#[test]
fn resolve_passes_through_plain_bytes() {
    let plain: Vec<u8> = b"not a container at all".to_vec();
    assert_eq!(resolve(&plain), plain);
    let empty: Vec<u8> = vec![];
    assert_eq!(resolve(&empty), empty);
}

#[test]
fn resolve_passes_through_random_block() {
    let block = pseudo_random_block();
    assert_eq!(block.len(), 4096);
    assert_eq!(resolve(&block), block);
}

#[test]
fn load_and_load_temporary_agree() {
    let mut loader =
        EmbeddedIPADICLoader::with_resources(valid_artifacts(), valid_metadata_bytes());
    let cached = loader.load().expect("cached load failed");
    let ephemeral = loader.load_temporary().expect("ephemeral load failed");

    assert_eq!(
        cached.connection_cost_matrix.costs_data,
        ephemeral.connection_cost_matrix.costs_data
    );
    assert_eq!(
        cached.connection_cost_matrix.forward_size,
        ephemeral.connection_cost_matrix.forward_size
    );
    assert_eq!(
        cached.connection_cost_matrix.backward_size,
        ephemeral.connection_cost_matrix.backward_size
    );
    assert_eq!(
        cached.character_definition.category_names,
        ephemeral.character_definition.category_names
    );
    assert_eq!(
        cached.unknown_dictionary.words_idx_data,
        ephemeral.unknown_dictionary.words_idx_data
    );
    assert_eq!(
        cached.unknown_dictionary.category_references,
        ephemeral.unknown_dictionary.category_references
    );
    let cached_metadata = serde_json::to_vec(&cached.metadata).unwrap();
    let ephemeral_metadata = serde_json::to_vec(&ephemeral.metadata).unwrap();
    assert_eq!(cached_metadata, ephemeral_metadata);
}

#[test]
fn load_resolves_each_artifact_at_most_once() {
    let mut loader =
        EmbeddedIPADICLoader::with_resources(valid_artifacts(), valid_metadata_bytes());
    assert_eq!(loader.resolution_count(), 0);
    loader.load().expect("first load failed");
    assert_eq!(loader.resolution_count(), 7);
    loader.load().expect("second load failed");
    assert_eq!(loader.resolution_count(), 7);
}

#[test]
fn load_temporary_retains_no_state() {
    let loader = EmbeddedIPADICLoader::with_resources(valid_artifacts(), valid_metadata_bytes());
    loader.load_temporary().expect("first ephemeral load failed");
    loader.load_temporary().expect("second ephemeral load failed");
    assert_eq!(loader.resolution_count(), 0);
}

#[test]
fn free_load_fills_a_caller_owned_cache() {
    let artifacts = valid_artifacts();
    let metadata = valid_metadata_bytes();
    let mut cache = DictionaryCache::new();
    assert_eq!(cache.resolution_count(), 0);
    load(&mut cache, &artifacts, &metadata).expect("cached load failed");
    assert_eq!(cache.resolution_count(), 7);
    load(&mut cache, &artifacts, &metadata).expect("second cached load failed");
    assert_eq!(cache.resolution_count(), 7);
}

#[test]
fn load_accepts_compressed_artifacts() {
    let raw = valid_artifacts();
    let wrapped = ArtifactSet {
        trie_da: wrap_in_container(&raw.trie_da),
        trie_vals: wrap_in_container(&raw.trie_vals),
        words_idx: wrap_in_container(&raw.words_idx),
        words: wrap_in_container(&raw.words),
        matrix: wrap_in_container(&raw.matrix),
        char_def: wrap_in_container(&raw.char_def),
        unknown: wrap_in_container(&raw.unknown),
    };
    let metadata = valid_metadata_bytes();
    let from_wrapped = load_temporary(&wrapped, &metadata).expect("load of wrapped set failed");
    let from_raw = load_temporary(&raw, &metadata).expect("load of raw set failed");
    assert_eq!(
        from_wrapped.character_definition.category_names,
        from_raw.character_definition.category_names
    );
    assert_eq!(
        from_wrapped.unknown_dictionary.words_idx_data,
        from_raw.unknown_dictionary.words_idx_data
    );
    assert_eq!(
        from_wrapped.connection_cost_matrix.costs_data,
        from_raw.connection_cost_matrix.costs_data
    );
}

#[test]
fn zero_length_artifacts_fail_on_character_definition() {
    let artifacts = ArtifactSet {
        trie_da: vec![],
        trie_vals: vec![],
        words_idx: vec![],
        words: vec![],
        matrix: vec![],
        char_def: vec![],
        unknown: vec![],
    };
    let r = load_temporary(&artifacts, &valid_metadata_bytes());
    assert_eq!(expect_err(r), LoadError::CharacterDefinitionParseError);
}

#[test]
fn embedding_disabled_loader_fails_deterministically() {
    let mut loader = EmbeddedIPADICLoader::new();
    let first = expect_err(loader.load());
    let second = expect_err(loader.load());
    assert_eq!(first, LoadError::MetadataParseError);
    assert_eq!(second, LoadError::MetadataParseError);
}

#[test]
fn default_loader_matches_new() {
    let mut loader = EmbeddedIPADICLoader::default();
    assert_eq!(expect_err(loader.load()), LoadError::MetadataParseError);
}

#[test]
fn container_wrapped_metadata_is_accepted() {
    let wrapped_metadata = wrap_in_container(&valid_metadata_bytes());
    let from_wrapped = load_temporary(&valid_artifacts(), &wrapped_metadata)
        .expect("load with wrapped metadata failed");
    let from_raw = load_temporary(&valid_artifacts(), &valid_metadata_bytes())
        .expect("load with raw metadata failed");
    assert_eq!(
        serde_json::to_vec(&from_wrapped.metadata).unwrap(),
        serde_json::to_vec(&from_raw.metadata).unwrap()
    );
}

#[test]
fn garbage_metadata_is_reported_first() {
    let r = load_temporary(&valid_artifacts(), &b"] not json [".to_vec());
    assert_eq!(expect_err(r), LoadError::MetadataParseError);
}

#[test]
fn garbage_character_definition_is_reported() {
    let mut artifacts = valid_artifacts();
    artifacts.char_def = vec![1, 2, 3];
    let r = load_temporary(&artifacts, &valid_metadata_bytes());
    assert_eq!(expect_err(r), LoadError::CharacterDefinitionParseError);
}

#[test]
fn garbage_unknown_dictionary_is_reported() {
    let mut artifacts = valid_artifacts();
    artifacts.unknown = vec![4, 5, 6];
    let r = load_temporary(&artifacts, &valid_metadata_bytes());
    assert_eq!(expect_err(r), LoadError::UnknownDictionaryParseError);
}

#[test]
fn truncated_trie_index_is_reported() {
    let mut artifacts = valid_artifacts();
    artifacts.trie_da = vec![0, 0, 0];
    let r = load_temporary(&artifacts, &valid_metadata_bytes());
    assert_eq!(expect_err(r), LoadError::PrefixDictionaryFormatError);
}

#[test]
fn undersized_trie_index_is_reported() {
    let mut artifacts = valid_artifacts();
    // One state claimed, but no room for its twelve-byte record.
    artifacts.trie_da = vec![1, 0, 0, 0, 0, 0, 0, 0];
    let r = load_temporary(&artifacts, &valid_metadata_bytes());
    assert_eq!(expect_err(r), LoadError::PrefixDictionaryFormatError);
}

#[test]
fn odd_length_matrix_is_reported() {
    let mut artifacts = valid_artifacts();
    artifacts.matrix = vec![0xff, 0xff, 0, 0, 0, 0, 0];
    let r = load_temporary(&artifacts, &valid_metadata_bytes());
    assert_eq!(expect_err(r), LoadError::ConnectionCostMatrixFormatError);
}

#[test]
fn oversized_matrix_header_is_reported() {
    let mut artifacts = valid_artifacts();
    // Legacy layout claiming a 2 x 2 table, with no room for its cells.
    artifacts.matrix = vec![2, 0, 2, 0, 0, 0];
    let r = load_temporary(&artifacts, &valid_metadata_bytes());
    assert_eq!(expect_err(r), LoadError::ConnectionCostMatrixFormatError);
}

#[test]
fn legacy_matrix_layout_is_accepted() {
    let mut artifacts = valid_artifacts();
    // Legacy layout: a 1 x 1 table with a single cost cell of value 9.
    artifacts.matrix = vec![1, 0, 1, 0, 9, 0];
    let d = load_temporary(&artifacts, &valid_metadata_bytes()).expect("legacy matrix rejected");
    assert_eq!(d.connection_cost_matrix.forward_size, 1);
    assert_eq!(d.connection_cost_matrix.backward_size, 1);
    assert_eq!(d.connection_cost_matrix.costs_data, vec![9]);
}

#[test]
fn truncated_container_passes_through() {
    let payload: Vec<u8> = (0u32..600).map(|i| (i % 239) as u8).collect();
    let mut container = wrap_in_container(&payload);
    let cut = container.len() / 2;
    let truncated: Vec<u8> = container.drain(..cut).collect();
    assert_eq!(resolve(&truncated), truncated);
}

#[test]
fn corrupt_compressed_stream_falls_back_to_raw_bytes() {
    // A well-formed container whose payload is not a valid compressed
    // stream: resolution must return the container bytes unchanged rather
    // than fail.
    let bogus = CompressedData::new(Algorithm::Deflate, vec![0xAA; 50]);
    let container = rkyv::to_bytes::<rkyv::rancor::Error>(&bogus)
        .expect("container serialization failed")
        .to_vec();
    assert_eq!(resolve(&container), container);
}

#[test]
fn resolution_is_deterministic() {
    let payload: Vec<u8> = (0u32..300).map(|i| (i * 13 % 241) as u8).collect();
    let container = wrap_in_container(&payload);
    assert_eq!(resolve(&container), resolve(&container));
    let block = pseudo_random_block();
    assert_eq!(resolve(&block), resolve(&block));
}
