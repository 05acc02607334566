//! Structural preconditions of the two non-fallible composition steps.
//!
//! The trie index and the connection-cost matrix are composed from resolved
//! bytes by direct reinterpretation, without a structural parse that could
//! report failure.  The reinterpretation is only defined on bytes laid out as
//! the respective deserialiser expects; on anything else it would abort.
//! These predicates state that layout exactly, and the checkers decide it, so
//! that assembly can reject malformed bytes instead of feeding them to a
//! composition step that cannot refuse them.

use vstd::prelude::*;

verus! {

/// The unsigned value of two little-endian bytes at position `i`.
pub open spec fn le16_spec(b: Seq<u8>, i: int) -> int
    recommends
        0 <= i,
        i + 2 <= b.len(),
{
    b[i] + 0x100 * b[i + 1]
}

/// The unsigned value of four little-endian bytes at position `i`.
pub open spec fn le32_spec(b: Seq<u8>, i: int) -> int
    recommends
        0 <= i,
        i + 4 <= b.len(),
{
    b[i] + 0x100 * b[i + 1] + 0x10000 * b[i + 2] + 0x1000000 * b[i + 3]
}

/// A 16-bit pattern reinterpreted as a signed value and then widened to a
/// 32-bit unsigned one, as the matrix composition does with its header
/// fields: values at or above 0x8000 are sign-extended.
pub open spec fn widen_i16_to_u32(v: int) -> int
    recommends
        0 <= v < 0x10000,
{
    if v < 0x8000 {
        v
    } else {
        v + 0xFFFF0000
    }
}

/// The trie index artifact as its deserialiser expects it: a count of states
/// (four bytes, little endian) followed by that many twelve-byte state
/// records, a count of outputs followed by that many twelve-byte output
/// records, one match-kind byte, and a four-byte state total.  Trailing bytes
/// beyond this layout are ignored by the deserialiser and are allowed here.
pub open spec fn trie_source_ok(b: Seq<u8>) -> bool {
    &&& b.len() >= 4
    &&& {
        let n_states = le32_spec(b, 0);
        &&& b.len() >= 8 + 12 * n_states
        &&& {
            let n_outputs = le32_spec(b, 4 + 12 * n_states);
            b.len() >= 13 + 12 * n_states + 12 * n_outputs
        }
    }
}

/// The connection-cost matrix artifact as its composition expects it: a
/// whole number of little-endian 16-bit values, at least two of them.  A
/// leading value of -1 marks the transposed layout, which carries two more
/// header values.  In the legacy layout the first two values are the forward
/// and backward sizes, widened to unsigned 32-bit values; their product
/// indexes every cell of a `(len / 2) - 2` cost table during transposition
/// and must both fit that table and stay inside 32-bit arithmetic.
pub open spec fn matrix_source_ok(b: Seq<u8>) -> bool {
    &&& b.len() >= 4
    &&& b.len() % 2 == 0
    &&& {
        if le16_spec(b, 0) == 0xFFFF {
            b.len() >= 6
        } else {
            let cells = widen_i16_to_u32(le16_spec(b, 0)) * widen_i16_to_u32(le16_spec(b, 2));
            &&& cells <= b.len() as int / 2 - 2
            &&& cells < 0x100000000
        }
    }
}

/// Read two little-endian bytes at position `i`.
fn read_le16(b: &Vec<u8>, i: usize) -> (r: u64)
    requires
        i + 2 <= b@.len(),
        b@.len() <= usize::MAX,
    ensures
        r == le16_spec(b@, i as int),
        r < 0x10000,
{
    (b[i] as u64) + 0x100 * (b[i + 1] as u64)
}

/// Read four little-endian bytes at position `i`.
fn read_le32(b: &Vec<u8>, i: usize) -> (r: u64)
    requires
        i + 4 <= b@.len(),
        b@.len() <= usize::MAX,
    ensures
        r == le32_spec(b@, i as int),
        r < 0x100000000,
{
    (b[i] as u64) + 0x100 * (b[i + 1] as u64) + 0x10000 * (b[i + 2] as u64) + 0x1000000 * (b[i
        + 3] as u64)
}

/// Decide `trie_source_ok`.
pub fn check_trie_source(b: &Vec<u8>) -> (r: bool)
    ensures
        r == trie_source_ok(b@),
{
    if b.len() < 4 {
        return false;
    }
    let len: u64 = b.len() as u64;
    let n_states: u64 = read_le32(b, 0);
    if len < 8 + 12 * n_states {
        return false;
    }
    let outputs_at: u64 = 4 + 12 * n_states;
    let n_outputs: u64 = read_le32(b, outputs_at as usize);
    len >= 13 + 12 * n_states + 12 * n_outputs
}

/// Decide `matrix_source_ok`.
pub fn check_matrix_source(b: &Vec<u8>) -> (r: bool)
    ensures
        r == matrix_source_ok(b@),
{
    if b.len() < 4 || b.len() % 2 != 0 {
        return false;
    }
    let first: u64 = read_le16(b, 0);
    if first == 0xFFFF {
        return b.len() >= 6;
    }
    let forward: u64 = if first < 0x8000 {
        first
    } else {
        first + 0xFFFF0000
    };
    let second: u64 = read_le16(b, 2);
    let backward: u64 = if second < 0x8000 {
        second
    } else {
        second + 0xFFFF0000
    };
    let table: u64 = (b.len() as u64) / 2 - 2;
    match forward.checked_mul(backward) {
        Some(cells) => cells <= table && cells < 0x100000000,
        None => false,
    }
}

} // verus!
