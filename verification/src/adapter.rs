//! The adapter itself: a CRC-32 accumulator behind the operation set of a
//! fixed-output hashing interface.

use vstd::prelude::*;
use crate::engine::{
    hasher_clone, hasher_finalize, hasher_new, hasher_new_with_initial, hasher_reset,
    hasher_state, hasher_update,
};
use crate::{crc32_append, u32_be_bytes, CRC32_DEFAULT_STATE};

verus! {

/// A running CRC-32 computation, exposed through the shape of an incremental
/// hash: construction, incremental `update`, a consuming 4-byte big-endian
/// finalization, `reset`, and a writer-style `write`/`flush` pair.
///
/// Its view is the accumulator's abstract state: the checksum that finalizing
/// it now would produce.
pub struct Crc32 {
    hasher: crc32fast::Hasher,
}

impl View for Crc32 {
    type V = u32;

    closed spec fn view(&self) -> u32 {
        hasher_state(self.hasher)
    }
}

impl Crc32 {
    /// Creates a new `Crc32` at the standard CRC-32 initial state.
    pub fn new() -> (c: Self)
        ensures
            c@ == CRC32_DEFAULT_STATE,
    {
        Crc32 { hasher: hasher_new() }
    }

    /// Creates a new `Crc32` initialized with the given state, for resuming a
    /// checksum from a previously finalized value: finalizing it with no
    /// further input returns `state` itself.
    pub fn from_state(state: u32) -> (c: Self)
        ensures
            c@ == state,
    {
        Crc32 { hasher: hasher_new_with_initial(state) }
    }

    /// Feeds `data` through the accumulator in one pass. Repeated calls fold
    /// their inputs in call order, so chunking never changes the checksum
    /// (`lemma_crc32_append_concat`).
    pub fn update(&mut self, data: &[u8])
        ensures
            final(self)@ == crc32_append(old(self)@, data@),
    {
        hasher_update(&mut self.hasher, data);
    }

    /// Consumes the adapter and writes its checksum into `out` as 4 bytes in
    /// big-endian order (most-significant byte first). The caller guarantees
    /// a buffer of exactly 4 bytes.
    pub fn finalize_into(self, out: &mut Vec<u8>)
        requires
            old(out)@.len() == 4,
        ensures
            final(out)@ == u32_be_bytes(self@),
    {
        let crc = hasher_finalize(self.hasher);
        out.set(0, (crc >> 24) as u8);
        out.set(1, ((crc >> 16) & 0xff) as u8);
        out.set(2, ((crc >> 8) & 0xff) as u8);
        out.set(3, (crc & 0xff) as u8);
        assert(out@ =~= u32_be_bytes(crc));
    }

    /// Restores the accumulator to the *standard* initial state — not the
    /// seed the adapter may have been constructed with. This asymmetry is a
    /// deliberate contract: `reset` discards a custom seed.
    pub fn reset(&mut self)
        ensures
            final(self)@ == CRC32_DEFAULT_STATE,
    {
        hasher_reset(&mut self.hasher);
    }

    /// Writer-style sink: identical in effect to `update`, and reports
    /// accepting every byte of `data`.
    pub fn write(&mut self, data: &[u8]) -> (n: usize)
        ensures
            final(self)@ == crc32_append(old(self)@, data@),
            n == data@.len(),
    {
        hasher_update(&mut self.hasher, data);
        data.len()
    }

    /// Writer-style flush: a no-op, since `write` folds its bytes into the
    /// accumulator immediately. The observable state never changes.
    pub fn flush(&mut self)
        ensures
            final(self)@ == old(self)@,
    {
    }

    /// The adapter's fixed output size: a finalized checksum is always
    /// exactly 4 bytes.
    pub fn output_size() -> (n: usize)
        ensures
            n == 4,
    {
        4
    }
}

impl Clone for Crc32 {
    /// Duplicates the whole accumulator state: the copy reports the same
    /// checksum and diverges independently under further updates.
    fn clone(&self) -> (c: Self)
        ensures
            c@ == self@,
    {
        Crc32 { hasher: hasher_clone(&self.hasher) }
    }
}

impl Default for Crc32 {
    /// Same as `Crc32::new`: an accumulator at the standard initial state.
    fn default() -> (c: Self)
        ensures
            c@ == CRC32_DEFAULT_STATE,
    {
        Crc32::new()
    }
}

} // verus!
