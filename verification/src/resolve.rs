//! The payload resolver: decides whether a byte sequence is a self-describing
//! compressed container and unpacks it, falling back to the raw bytes when it
//! is not, or when the recovered payload cannot be decompressed.

use vstd::prelude::*;
use lindera_dictionary::decompress::CompressedData;
use lindera_dictionary::decompress::decompress;

verus! {

/// What the container decoding step yields for a byte sequence: `Some` of the
/// decompressed payload when the bytes are a recognised compressed container
/// whose payload decompresses, `None` otherwise.  The decoding is a pure
/// function of the bytes alone, so it is given a name here rather than an
/// algorithmic definition.
pub uninterp spec fn container_payload(bytes: Seq<u8>) -> Option<Seq<u8>>;

/// What resolving a byte sequence returns: the decoded payload where the
/// bytes are a container that unpacks, the bytes themselves otherwise.
pub open spec fn resolve_spec(bytes: Seq<u8>) -> Seq<u8> {
    match container_payload(bytes) {
        Some(payload) => payload,
        None => bytes,
    }
}

/// Relies on `rkyv::from_bytes::<CompressedData, _>` and
/// `lindera_dictionary::decompress::decompress`: the bytes are copied into a
/// 16-byte-aligned scratch buffer (an alignment precondition of the archive
/// format), deserialised as a compressed container, and the contained payload
/// is decompressed.  Both steps are validated, never panic, and depend on the
/// input bytes alone; either failing yields `None`.
#[verifier::external_body]
fn try_unwrap_container(bytes: &Vec<u8>) -> (r: Option<Vec<u8>>)
    ensures
        r is Some <==> container_payload(bytes@) is Some,
        r matches Some(payload) ==> Some(payload@) == container_payload(bytes@),
{
    let mut aligned = rkyv::util::AlignedVec::<16>::new();
    aligned.extend_from_slice(bytes.as_slice());
    match rkyv::from_bytes::<CompressedData, rkyv::rancor::Error>(&aligned) {
        Ok(compressed) => decompress(compressed).ok(),
        Err(_) => None,
    }
}

/// An element-by-element copy of a byte vector.
pub(crate) fn clone_bytes(bytes: &Vec<u8>) -> (r: Vec<u8>)
    ensures
        r@ == bytes@,
{
    let mut r: Vec<u8> = Vec::new();
    let mut i: usize = 0;
    while i < bytes.len()
        invariant
            i <= bytes.len(),
            r@ == bytes@.take(i as int),
        decreases bytes.len() - i,
    {
        r.push(bytes[i]);
        i = i + 1;
    }
    proof {
        assert(r@ == bytes@.take(bytes@.len() as int));
        assert(bytes@.take(bytes@.len() as int) =~= bytes@);
    }
    r
}

/// Resolve one artifact: unpack it when it is a recognised compressed
/// container, return it unchanged otherwise.  Total: no input is rejected.
pub fn resolve(bytes: &Vec<u8>) -> (r: Vec<u8>)
    ensures
        r@ == resolve_spec(bytes@),
{
    match try_unwrap_container(bytes) {
        Some(payload) => payload,
        None => clone_bytes(bytes),
    }
}

/// Round trip: a byte sequence that is a container wrapping a payload
/// resolves to exactly that payload.
pub proof fn lemma_resolve_round_trip(container: Seq<u8>, payload: Seq<u8>)
    requires
        container_payload(container) == Some(payload),
    ensures
        resolve_spec(container) == payload,
{
}

/// Pass-through: a byte sequence that is not a recognised container (or whose
/// payload does not decompress) resolves to itself, byte for byte.
pub proof fn lemma_resolve_pass_through(bytes: Seq<u8>)
    requires
        container_payload(bytes) is None,
    ensures
        resolve_spec(bytes) == bytes,
{
}

} // verus!
