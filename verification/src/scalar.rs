use vstd::prelude::*;

verus! {

/// The word that encodes one.
pub const ONE: u32 = 0x3F80_0000;

/// The word that encodes positive zero.
pub const ZERO: u32 = 0;

/// All bits of a word but its sign.
pub const MAGNITUDE_MASK: u32 = 0x7FFF_FFFF;

/// A word encodes zero when every bit but the sign is clear.
pub open spec fn spec_is_zero(w: u32) -> bool {
    w == 0 || w == 0x8000_0000
}

/// Tells whether `w` encodes positive or negative zero.
pub fn is_zero(w: u32) -> (r: bool)
    ensures
        r == spec_is_zero(w),
{
    assert((w & 0x7FFF_FFFF == 0) == (w == 0 || w == 0x8000_0000)) by (bit_vector);
    w & MAGNITUDE_MASK == 0
}

} // verus!
