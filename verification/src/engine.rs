//! The trusted boundary to the external CRC-32 engine.
//!
//! The adapter never computes CRC-32 itself: every operation forwards to
//! `crc32fast::Hasher`. This module declares that opaque accumulator type and
//! wraps the five operations the adapter needs, stating what each does to the
//! accumulator's abstract state. `crc32fast` stores the running checksum
//! itself as its state: a fresh hasher starts at `0`, `update` folds bytes
//! into it, and `finalize` reads it out unchanged.

use vstd::prelude::*;
use crate::{crc32_append, crc32_step, CRC32_DEFAULT_STATE};

verus! {

#[verifier::external_type_specification]
#[verifier::external_body]
pub struct ExHasher(crc32fast::Hasher);

/// The abstract state of a `crc32fast::Hasher`: the running checksum it
/// would report if finalized now. The accumulator is opaque; this name is
/// given meaning only by the contracts of the wrappers below.
pub uninterp spec fn hasher_state(h: crc32fast::Hasher) -> u32;

/// Relies on `crc32fast::Hasher::new`: the accumulator starts at the default
/// CRC-32 state (the crate's `DEFAULT_INIT_STATE`, which is `0`).
#[verifier::external_body]
pub(crate) fn hasher_new() -> (h: crc32fast::Hasher)
    ensures
        hasher_state(h) == CRC32_DEFAULT_STATE,
{
    crc32fast::Hasher::new()
}

/// Relies on `crc32fast::Hasher::new_with_initial`: the accumulator starts at
/// exactly the given checksum state, so finalizing it untouched returns `init`.
#[verifier::external_body]
pub(crate) fn hasher_new_with_initial(init: u32) -> (h: crc32fast::Hasher)
    ensures
        hasher_state(h) == init,
{
    crc32fast::Hasher::new_with_initial(init)
}

/// Relies on `crc32fast::Hasher::update`: the bytes of `data` are folded into
/// the running checksum in order, one byte-step at a time. The SIMD paths
/// compute the same function as the byte-at-a-time table fold.
#[verifier::external_body]
pub(crate) fn hasher_update(h: &mut crc32fast::Hasher, data: &[u8])
    ensures
        hasher_state(*final(h)) == crc32_append(hasher_state(*old(h)), data@),
        data@.len() == 1 ==> hasher_state(*final(h)) == crc32_step(
            hasher_state(*old(h)),
            data@[0],
        ),
{
    h.update(data)
}

/// Relies on `crc32fast::Hasher::finalize`: it consumes the accumulator and
/// returns its state unchanged.
#[verifier::external_body]
pub(crate) fn hasher_finalize(h: crc32fast::Hasher) -> (crc: u32)
    ensures
        crc == hasher_state(h),
{
    h.finalize()
}

/// Relies on `crc32fast::Hasher::reset`: the accumulator returns to the
/// default CRC-32 state, whatever state it was created with.
#[verifier::external_body]
pub(crate) fn hasher_reset(h: &mut crc32fast::Hasher)
    ensures
        hasher_state(*final(h)) == CRC32_DEFAULT_STATE,
{
    h.reset()
}

/// Relies on `crc32fast::Hasher::clone` (a derived `Clone` that copies the
/// whole accumulator): the copy carries the same state and is independent.
#[verifier::external_body]
pub(crate) fn hasher_clone(h: &crc32fast::Hasher) -> (c: crc32fast::Hasher)
    ensures
        hasher_state(c) == hasher_state(*h),
{
    h.clone()
}

} // verus!
