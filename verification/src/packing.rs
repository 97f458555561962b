//! Small shared pieces of the packet layouts: the flags byte and the facts
//! about its bits that the codec round-trip proofs lean on.

use vstd::prelude::*;

verus! {

/// Bit 0 of the flags byte marks a write request.
pub open spec fn spec_write_flag(write: bool) -> u8 {
    if write {
        1u8
    } else {
        0u8
    }
}

/// The flags byte of a request: only the write bit is ever set.
pub fn flags_byte(write: bool) -> (r: u8)
    ensures
        r == spec_write_flag(write),
{
    if write {
        1
    } else {
        0
    }
}

/// How the two flag bits read back out of a request's flags byte: the write
/// bit is whatever was packed, and the success bit is never set by `pack`.
pub proof fn lemma_write_flag(write: bool)
    ensures
        (spec_write_flag(write) & 1 != 0) == write,
        spec_write_flag(write) & 2 == 0,
{
    assert(1u8 & 1 != 0 && 0u8 & 1 == 0 && 1u8 & 2 == 0 && 0u8 & 2 == 0) by (bit_vector);
}

/// How the two flag bits read back out of a response's flags byte once the
/// success bit has been set beside the write bit.
pub proof fn lemma_success_flag(write: bool)
    ensures
        ((spec_write_flag(write) | 2) & 1 != 0) == write,
        (spec_write_flag(write) | 2) & 2 != 0,
{
    assert((1u8 | 2) & 1 != 0 && (0u8 | 2) & 1 == 0 && (1u8 | 2) & 2 != 0 && (0u8 | 2) & 2 != 0)
        by (bit_vector);
}

} // verus!
