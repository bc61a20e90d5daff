//! A float slot that can hold only the canonical NaN patterns.
//!
//! Handing out mutable access to the float half of a NaN box would let a
//! caller write an arbitrary NaN payload and silently turn the slot into
//! something the box would read as a tagged value. This type is the guard:
//! every write is normalized, so the slot's pattern always stays on the
//! float side of the discriminator.

use crate::raw::canonical_float_bits;
use crate::raw::is_float_bits;
use crate::raw::is_nan_bits;
use crate::raw::NEG_QUIET_NAN;
use crate::raw::QUIET_NAN;
use crate::raw::SIGN_MASK;
use vstd::prelude::*;

verus! {

/// A 64-bit float pattern that is never a NaN other than the two canonical
/// quiet NaNs.
#[derive(Clone, Copy, Debug, PartialEq, Eq, Structural)]
pub struct SingleNaNF64 {
    /// The bits of the float.
    pub bits: u64,
}

impl SingleNaNF64 {
    /// The invariant: the pattern reads as a float under the NaN-box
    /// discriminator, so it is either no NaN at all or a canonical one.
    pub open spec fn wf(self) -> bool {
        is_float_bits(self.bits)
    }

    /// Create a new slot from float bits, normalizing any NaN into the
    /// canonical pattern of its sign.
    pub fn new(bits: u64) -> (r: SingleNaNF64)
        ensures
            r.bits == canonical_float_bits(bits),
            r.wf(),
    {
        let exp_nan = bits & 0x7FF0_0000_0000_0000 == 0x7FF0_0000_0000_0000;
        let frac = bits & 0x000F_FFFF_FFFF_FFFF != 0;
        if exp_nan && frac {
            proof {
                assert(QUIET_NAN & 0x7FFF_FFFF_FFFF_FFFFu64 == QUIET_NAN && NEG_QUIET_NAN
                    & 0x7FFF_FFFF_FFFF_FFFFu64 == QUIET_NAN) by (bit_vector);
            }
            if bits >> 63 == 0 {
                SingleNaNF64 { bits: QUIET_NAN }
            } else {
                SingleNaNF64 { bits: NEG_QUIET_NAN }
            }
        } else {
            SingleNaNF64 { bits }
        }
    }

    /// Adopt float bits only if they already respect the invariant: a
    /// non-NaN, or a canonical NaN. Any other NaN is refused rather than
    /// silently rewritten, since the caller's slot may be aliased as raw
    /// float storage.
    pub fn from_bits(bits: u64) -> (r: Option<SingleNaNF64>)
        ensures
            is_float_bits(bits) <==> r == Some(SingleNaNF64 { bits }),
            !is_float_bits(bits) <==> r is None,
    {
        let exp_nan = bits & 0x7FF0_0000_0000_0000 == 0x7FF0_0000_0000_0000;
        let frac = bits & 0x000F_FFFF_FFFF_FFFF != 0;
        if exp_nan && frac && bits & SIGN_MASK != QUIET_NAN {
            None
        } else {
            Some(SingleNaNF64 { bits })
        }
    }

    /// Write float bits into this slot, normalizing any NaN.
    pub fn write(&mut self, bits: u64)
        ensures
            final(self).bits == canonical_float_bits(bits),
            final(self).wf(),
    {
        *self = SingleNaNF64::new(bits);
    }

    /// Copy out the contained float bits.
    pub fn get(self) -> (r: u64)
        ensures
            r == self.bits,
    {
        self.bits
    }
}

/// Canonicalization keeps every observable float property: a non-NaN is
/// untouched, a NaN stays a NaN, and the sign bit always survives.
pub proof fn lemma_canonicalization(bits: u64)
    ensures
        !is_nan_bits(bits) ==> canonical_float_bits(bits) == bits,
        is_nan_bits(bits) ==> is_nan_bits(canonical_float_bits(bits)),
        canonical_float_bits(bits) >> 63 == bits >> 63,
        is_float_bits(canonical_float_bits(bits)),
        canonical_float_bits(canonical_float_bits(bits)) == canonical_float_bits(bits),
{
    assert(bits >> 63 == 0u64 || bits >> 63 == 1u64) by (bit_vector);
    assert((QUIET_NAN & 0x7FF0_0000_0000_0000u64 == 0x7FF0_0000_0000_0000 && QUIET_NAN
        & 0x000F_FFFF_FFFF_FFFFu64 != 0 && QUIET_NAN & 0x7FFF_FFFF_FFFF_FFFFu64 == QUIET_NAN
        && QUIET_NAN >> 63 == 0u64) && (NEG_QUIET_NAN & 0x7FF0_0000_0000_0000u64
        == 0x7FF0_0000_0000_0000 && NEG_QUIET_NAN & 0x000F_FFFF_FFFF_FFFFu64 != 0
        && NEG_QUIET_NAN & 0x7FFF_FFFF_FFFF_FFFFu64 == QUIET_NAN && NEG_QUIET_NAN >> 63
        == 1u64)) by (bit_vector);
}

} // verus!
