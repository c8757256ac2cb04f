//! Packing of two 4-bit values into one byte.

use vstd::prelude::*;

verus! {

/// The byte whose high nibble is the low nibble of `upper` and whose low
/// nibble is the low nibble of `lower`.
pub open spec fn nibbles(upper: u8, lower: u8) -> u8 {
    ((upper % 16) * 16 + lower % 16) as u8
}

/// Combines two nibbles.
///
/// The upper value is shifted left by four bits, so whatever it holds above
/// its low nibble is discarded; the lower value is masked to its low nibble.
pub fn combine_nibble(upper: u8, lower: u8) -> (r: u8)
    ensures
        r == nibbles(upper, lower),
        r / 16 == upper % 16,
        r % 16 == lower % 16,
        r == (upper << 4) | (lower & 0x0F),
{
    assert(((upper << 4) | (lower & 0x0F)) == ((upper % 16) * 16 + lower % 16) as u8)
        by (bit_vector);
    (upper << 4) | (lower & 0x0F)
}

} // verus!
