//! The five dictionary components, each parsed or composed by the outside
//! crate that owns its byte layout.  The parsers are reached only through the
//! trusted wrappers below; everything else about the components is opaque
//! here.

use vstd::prelude::*;
use lindera_dictionary::dictionary::character_definition::CharacterDefinition;
use lindera_dictionary::dictionary::connection_cost_matrix::ConnectionCostMatrix;
use lindera_dictionary::dictionary::metadata::Metadata;
use lindera_dictionary::dictionary::prefix_dictionary::PrefixDictionary;
use lindera_dictionary::dictionary::unknown_dictionary::UnknownDictionary;
use lindera_dictionary::error::LinderaError;
use crate::source_format::matrix_source_ok;
use crate::source_format::trie_source_ok;

verus! {

#[verifier::external_type_specification]
#[verifier::external_body]
pub struct ExMetadata(Metadata);

#[verifier::external_type_specification]
#[verifier::external_body]
pub struct ExCharacterDefinition(CharacterDefinition);

#[verifier::external_type_specification]
#[verifier::external_body]
pub struct ExUnknownDictionary(UnknownDictionary);

#[verifier::external_type_specification]
#[verifier::external_body]
pub struct ExPrefixDictionary(PrefixDictionary);

#[verifier::external_type_specification]
#[verifier::external_body]
pub struct ExConnectionCostMatrix(ConnectionCostMatrix);

#[verifier::external_type_specification]
#[verifier::external_body]
pub struct ExLinderaError(LinderaError);

/// Whether the metadata record parses from a byte sequence.  The parse is a
/// pure function of the bytes, so only its success is named here.
pub uninterp spec fn metadata_parses(bytes: Seq<u8>) -> bool;

/// Whether the character-definition table parses from a byte sequence.
pub uninterp spec fn char_def_parses(bytes: Seq<u8>) -> bool;

/// Whether the unknown-word table parses from a byte sequence.
pub uninterp spec fn unknown_parses(bytes: Seq<u8>) -> bool;

/// Relies on `Metadata::load`: a structural parse of the metadata record's
/// own (textual) encoding, validated and total.  Its fallback branch for
/// container-wrapped metadata parses the given slice in place and rejects a
/// misaligned buffer, so the bytes are first copied into a 16-byte-aligned
/// scratch buffer; on that buffer the outcome is a pure function of the
/// bytes.
#[verifier::external_body]
pub(crate) fn load_metadata(bytes: &Vec<u8>) -> (r: Result<Metadata, LinderaError>)
    ensures
        r is Ok <==> metadata_parses(bytes@),
{
    let mut aligned = rkyv::util::AlignedVec::<16>::new();
    aligned.extend_from_slice(bytes.as_slice());
    Metadata::load(aligned.as_slice())
}

/// Relies on `CharacterDefinition::load`: a validated archive parse of the
/// character-definition table, total, a pure function of the bytes.
#[verifier::external_body]
pub(crate) fn load_character_definition(bytes: &Vec<u8>) -> (r: Result<
    CharacterDefinition,
    LinderaError,
>)
    ensures
        r is Ok <==> char_def_parses(bytes@),
{
    CharacterDefinition::load(bytes.as_slice())
}

/// Relies on `UnknownDictionary::load`: a validated archive parse of the
/// unknown-word table, total, a pure function of the bytes.
#[verifier::external_body]
pub(crate) fn load_unknown_dictionary(bytes: &Vec<u8>) -> (r: Result<
    UnknownDictionary,
    LinderaError,
>)
    ensures
        r is Ok <==> unknown_parses(bytes@),
{
    UnknownDictionary::load(bytes.as_slice())
}

/// Relies on `PrefixDictionary::load`: composes the prefix dictionary from
/// the four trie artifacts by direct reinterpretation, without structural
/// validation.  Its trie-index deserialisation is only defined on bytes laid
/// out as `trie_source_ok` states; the other three tables are stored as
/// they are.
#[verifier::external_body]
pub(crate) fn load_prefix_dictionary(
    trie_da: Vec<u8>,
    trie_vals: Vec<u8>,
    words_idx: Vec<u8>,
    words: Vec<u8>,
    is_system: bool,
) -> PrefixDictionary
    requires
        trie_source_ok(trie_da@),
{
    PrefixDictionary::load(trie_da, trie_vals, words_idx, words, is_system)
}

/// Relies on `ConnectionCostMatrix::load`: reinterprets the artifact as a
/// table of little-endian 16-bit costs, without structural validation.  The
/// reinterpretation is only defined on bytes laid out as
/// `matrix_source_ok` states.
#[verifier::external_body]
pub(crate) fn load_connection_cost_matrix(bytes: Vec<u8>) -> ConnectionCostMatrix
    requires
        matrix_source_ok(bytes@),
{
    ConnectionCostMatrix::load(bytes)
}

} // verus!
