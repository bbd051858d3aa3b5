//! A CRC-32 checksum accumulator presented through a fixed-output hashing
//! interface: incremental update, consuming 4-byte big-endian finalization,
//! reset, and a writer-style sink.

use vstd::prelude::*;

mod adapter;
mod engine;

pub use adapter::Crc32;

verus! {

/// The accumulator state that a freshly created hasher starts from, and that
/// `reset` restores. `crc32fast` represents the running checksum directly, so
/// the default state is the checksum of the empty input, `0`.
pub const CRC32_DEFAULT_STATE: u32 = 0;

/// What feeding one byte to the CRC-32 accumulator does to its state.
/// The CRC-32 polynomial arithmetic itself is left abstract: the adapter
/// never computes it, it only forwards bytes to the external engine.
pub uninterp spec fn crc32_step(state: u32, byte: u8) -> u32;

/// The accumulator state reached from `state` after feeding every byte of
/// `data`, in order.
pub open spec fn crc32_append(state: u32, data: Seq<u8>) -> u32
    decreases data.len(),
{
    if data.len() == 0 {
        state
    } else {
        crc32_append(crc32_step(state, data[0]), data.drop_first())
    }
}

/// The CRC-32 checksum of `data`: the state reached from the default
/// initial state after feeding all of `data`.
pub open spec fn crc32_of(data: Seq<u8>) -> u32 {
    crc32_append(CRC32_DEFAULT_STATE, data)
}

/// The four bytes of `x` in big-endian order (most-significant byte first).
pub open spec fn u32_be_bytes(x: u32) -> Seq<u8> {
    seq![
        (x >> 24) as u8,
        ((x >> 16) & 0xff) as u8,
        ((x >> 8) & 0xff) as u8,
        (x & 0xff) as u8,
    ]
}

/// Feeding `s1` and then `s2` reaches the same accumulator state as feeding
/// their concatenation in a single pass: chunking boundaries do not matter.
pub proof fn lemma_crc32_append_concat(state: u32, s1: Seq<u8>, s2: Seq<u8>)
    ensures
        crc32_append(crc32_append(state, s1), s2) == crc32_append(state, s1 + s2),
    decreases s1.len(),
{
    if s1.len() == 0 {
        assert(s1 + s2 =~= s2);
    } else {
        assert((s1 + s2).drop_first() =~= s1.drop_first() + s2);
        lemma_crc32_append_concat(crc32_step(state, s1[0]), s1.drop_first(), s2);
    }
}

/// An accumulator at the default initial state, fed all of `data`, holds
/// exactly the standard CRC-32 checksum of `data`.
pub proof fn lemma_crc32_of_from_default(data: Seq<u8>)
    ensures
        crc32_append(CRC32_DEFAULT_STATE, data) == crc32_of(data),
{
}

} // verus!
