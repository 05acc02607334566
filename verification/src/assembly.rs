//! The dictionary assembler: combines seven resolved artifacts and one
//! metadata record into a `Dictionary`, or reports the first structural
//! failure.  No partially built aggregate is ever observable: the value is
//! constructed only after every fallible step has succeeded.

use vstd::prelude::*;
use lindera_dictionary::dictionary::character_definition::CharacterDefinition;
use lindera_dictionary::dictionary::connection_cost_matrix::ConnectionCostMatrix;
use lindera_dictionary::dictionary::metadata::Metadata;
use lindera_dictionary::dictionary::prefix_dictionary::PrefixDictionary;
use lindera_dictionary::dictionary::unknown_dictionary::UnknownDictionary;
use crate::artifacts::ArtifactSet;
use crate::artifacts::ArtifactSetView;
use crate::components::char_def_parses;
use crate::components::load_character_definition;
use crate::components::load_connection_cost_matrix;
use crate::components::load_metadata;
use crate::components::load_prefix_dictionary;
use crate::components::load_unknown_dictionary;
use crate::components::metadata_parses;
use crate::components::unknown_parses;
use crate::source_format::check_matrix_source;
use crate::source_format::check_trie_source;
use crate::source_format::matrix_source_ok;
use crate::source_format::trie_source_ok;

verus! {

/// Why a load failed: the first structural failure met during assembly.
#[derive(Clone, Copy, Debug, PartialEq, Eq, Structural)]
pub enum LoadError {
    /// The metadata record did not parse under its own encoding.
    MetadataParseError,
    /// The character-definition table did not parse.
    CharacterDefinitionParseError,
    /// The unknown-word table did not parse.
    UnknownDictionaryParseError,
    /// The trie index bytes are not laid out as the prefix-dictionary
    /// composition expects, so composing them would abort.
    PrefixDictionaryFormatError,
    /// The connection-cost matrix bytes are not laid out as the matrix
    /// composition expects, so composing them would abort.
    ConnectionCostMatrixFormatError,
}

/// What a `Dictionary` is built from: the resolved bytes behind each
/// component, plus the metadata bytes.  Every parser and composition step is
/// a pure function of its input bytes, so this view determines the
/// components' contents.
pub struct DictionaryView {
    /// The seven resolved artifact byte sequences.
    pub artifacts: ArtifactSetView,
    /// The metadata record's bytes.
    pub metadata: Seq<u8>,
}

/// The fully populated dictionary aggregate: five semantic components plus
/// the metadata record.  Values exist only as the assembler's output.
pub struct Dictionary {
    /// Trie-backed word index over surface forms.
    pub prefix_dictionary: PrefixDictionary,
    /// Transition costs between part-of-speech contexts.
    pub connection_cost_matrix: ConnectionCostMatrix,
    /// Character classification table.
    pub character_definition: CharacterDefinition,
    /// Fallback entries for out-of-vocabulary words.
    pub unknown_dictionary: UnknownDictionary,
    /// Versioning and configuration of the dictionary build.
    pub metadata: Metadata,
    sources: Ghost<DictionaryView>,
}

impl View for Dictionary {
    type V = DictionaryView;

    closed spec fn view(&self) -> DictionaryView {
        self.sources@
    }
}

/// The first structural failure that assembling from these bytes meets, or
/// `None` where assembly succeeds.  The metadata record is parsed first and
/// independently; then the two structural parses, in the order character
/// definition, unknown-word table; then the layout of the bytes handed to
/// the two non-fallible compositions is checked, trie index first.
pub open spec fn assemble_err(resolved: ArtifactSetView, metadata: Seq<u8>) -> Option<LoadError> {
    if !metadata_parses(metadata) {
        Some(LoadError::MetadataParseError)
    } else if !char_def_parses(resolved.char_def) {
        Some(LoadError::CharacterDefinitionParseError)
    } else if !unknown_parses(resolved.unknown) {
        Some(LoadError::UnknownDictionaryParseError)
    } else if !trie_source_ok(resolved.trie_da) {
        Some(LoadError::PrefixDictionaryFormatError)
    } else if !matrix_source_ok(resolved.matrix) {
        Some(LoadError::ConnectionCostMatrixFormatError)
    } else {
        None
    }
}

/// What assembling from `resolved` and `metadata` returns: the error that
/// `assemble_err` names, or a dictionary built from exactly these bytes.
pub open spec fn assembles_to(
    resolved: ArtifactSetView,
    metadata: Seq<u8>,
    r: Result<Dictionary, LoadError>,
) -> bool {
    match assemble_err(resolved, metadata) {
        Some(e) => r == Err::<Dictionary, LoadError>(e),
        None => r matches Ok(d) && d@ == (DictionaryView { artifacts: resolved, metadata }),
    }
}

/// Assemble the dictionary from seven already-resolved artifacts and the
/// metadata record.  The first structural failure aborts assembly; the
/// aggregate is constructed only once nothing more can fail.
pub fn assemble(resolved: ArtifactSet, metadata: &Vec<u8>) -> (r: Result<Dictionary, LoadError>)
    ensures
        assembles_to(resolved@, metadata@, r),
{
    let ghost sources = DictionaryView { artifacts: resolved@, metadata: metadata@ };
    let parsed_metadata = match load_metadata(metadata) {
        Ok(m) => m,
        Err(_) => {
            return Err(LoadError::MetadataParseError);
        },
    };
    let character_definition = match load_character_definition(&resolved.char_def) {
        Ok(c) => c,
        Err(_) => {
            return Err(LoadError::CharacterDefinitionParseError);
        },
    };
    let unknown_dictionary = match load_unknown_dictionary(&resolved.unknown) {
        Ok(u) => u,
        Err(_) => {
            return Err(LoadError::UnknownDictionaryParseError);
        },
    };
    if !check_trie_source(&resolved.trie_da) {
        return Err(LoadError::PrefixDictionaryFormatError);
    }
    if !check_matrix_source(&resolved.matrix) {
        return Err(LoadError::ConnectionCostMatrixFormatError);
    }
    let ArtifactSet { trie_da, trie_vals, words_idx, words, matrix, .. } = resolved;
    let prefix_dictionary = load_prefix_dictionary(trie_da, trie_vals, words_idx, words, true);
    let connection_cost_matrix = load_connection_cost_matrix(matrix);
    Ok(
        Dictionary {
            prefix_dictionary,
            connection_cost_matrix,
            character_definition,
            unknown_dictionary,
            metadata: parsed_metadata,
            sources: Ghost(sources),
        },
    )
}

} // verus!
