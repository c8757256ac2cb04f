//! A primitive value with 4-bit length.

use crate::message::data::{FromClamped, FromOverFlow};
use crate::util::nibble::{combine_nibble, nibbles};
use vstd::prelude::*;

verus! {

/// A primitive value that can be from 0-0x0F
#[derive(Debug, Clone, Copy, PartialEq, Eq, PartialOrd, Ord, Hash, Structural)]
pub struct U4(pub(crate) u8);

/// Error representing that this value is not a valid u4
#[derive(Debug, Clone, Copy, PartialEq, Eq, Structural)]
pub struct InvalidU4(pub u8);

impl View for U4 {
    type V = u8;

    /// The number that the value holds.
    open(crate) spec fn view(&self) -> u8 {
        self.0
    }
}

impl U4 {
    /// Maximum number that the type holds.
    pub const MAX: u8 = 0x0F;

    /// Minimum number that the type holds.
    pub const MIN: u8 = 0;

    /// The stored number never exceeds `MAX`.
    #[verifier::type_invariant]
    pub open(crate) spec fn wf(self) -> bool {
        self.0 <= U4::MAX
    }

    /// The value that holds `value`.
    pub open(crate) spec fn new_spec(value: u8) -> U4 {
        U4(value)
    }

    /// Combines two nibbles into one byte: `upper` becomes the high nibble,
    /// `lower` the low nibble.
    pub fn combine(upper: U4, lower: U4) -> (r: u8)
        ensures
            r == upper@ * 16 + lower@,
            r == nibbles(upper@, lower@),
            r / 16 == upper@,
            r % 16 == lower@,
    {
        proof {
            use_type_invariant(&upper);
            use_type_invariant(&lower);
        }
        combine_nibble(upper.0, lower.0)
    }

    /// Constructs a U4 from a u8, discarding the high nibble.
    pub fn from_overflowing_u8(value: u8) -> (r: U4)
        ensures
            r == <U4 as FromOverFlow<u8>>::from_overflow_spec(value),
            r@ == value & 0x0F,
            r@ == value % 16,
    {
        <U4 as FromOverFlow<u8>>::from_overflow(value)
    }

    /// Two values are equal exactly when they hold the same number, and a
    /// value is well formed exactly when its number is at most `MAX`.
    pub proof fn lemma_view(self, other: U4)
        ensures
            self@ == other@ <==> self == other,
            U4::new_spec(self@) == self,
            self.wf() <==> self@ <= U4::MAX,
    {
    }
}

impl TryFrom<u8> for U4 {
    type Error = InvalidU4;

    /// Validating construction: fails on a number above `MAX`.
    fn try_from(value: u8) -> (r: Result<Self, Self::Error>)
        ensures
            value <= U4::MAX ==> r is Ok && r->Ok_0@ == value,
            value > U4::MAX ==> r == Err::<U4, InvalidU4>(InvalidU4(value)),
    {
        if value > U4::MAX {
            Err(InvalidU4(value))
        } else {
            Ok(U4(value))
        }
    }
}

impl vstd::std_specs::convert::TryFromSpecImpl<u8> for U4 {
    open spec fn obeys_try_from_spec() -> bool {
        true
    }

    open spec fn try_from_spec(value: u8) -> Result<Self, Self::Error> {
        if value > U4::MAX {
            Err(InvalidU4(value))
        } else {
            Ok(U4::new_spec(value))
        }
    }
}

impl From<U4> for u8 {
    /// The number that the value holds, which is at most `U4::MAX`.
    fn from(value: U4) -> (r: u8)
        ensures
            r == value@,
            r <= U4::MAX,
    {
        proof {
            use_type_invariant(&value);
        }
        value.0
    }
}

impl vstd::std_specs::convert::FromSpecImpl<U4> for u8 {
    open spec fn obeys_from_spec() -> bool {
        true
    }

    open spec fn from_spec(value: U4) -> u8 {
        value@
    }
}

impl FromOverFlow<u8> for U4 {
    open spec fn from_overflow_spec(value: u8) -> U4 {
        U4::new_spec(value & 0x0F)
    }

    /// Overflow construction: keeps the low four bits.
    fn from_overflow(value: u8) -> (r: U4)
        ensures
            r@ == value & 0x0F,
            r@ == value % 16,
    {
        assert(value & 0x0F <= 0x0F && value & 0x0F == value % 16) by (bit_vector);
        U4(value & 0x0F)
    }
}

impl FromClamped<u8> for U4 {
    open spec fn from_clamped_spec(value: u8) -> U4 {
        if value > U4::MAX {
            U4::new_spec(U4::MAX)
        } else {
            U4::new_spec(value)
        }
    }

    /// Clamped construction: a number above `MAX` becomes `MAX`.
    fn from_clamped(value: u8) -> (r: U4)
        ensures
            value <= U4::MAX ==> r@ == value,
            value > U4::MAX ==> r@ == U4::MAX,
    {
        if value > U4::MAX {
            U4(U4::MAX)
        } else {
            U4(value)
        }
    }
}

} // verus!
