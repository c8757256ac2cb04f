//! A primitive value with 14-bit length.

use crate::message::data::u7::U7;
use crate::message::data::{FromClamped, FromOverFlow};
use vstd::prelude::*;

verus! {

/// A primitive value that can be from 0-0x3FFF
#[derive(Debug, Clone, Copy, PartialEq, Eq, PartialOrd, Ord, Hash, Structural)]
pub struct U14(pub(crate) u16);

/// Error representing that this value is not a valid u14
#[derive(Debug, Clone, Copy, PartialEq, Eq, Structural)]
pub struct InvalidU14(pub u16);

impl View for U14 {
    type V = u16;

    /// The number that the value holds.
    open(crate) spec fn view(&self) -> u16 {
        self.0
    }
}

impl U14 {
    /// Maximum number that the type holds.
    pub const MAX: u16 = 0x3FFF;

    /// Minimum number that the type holds.
    pub const MIN: u16 = 0;

    /// The stored number never exceeds `MAX`.
    #[verifier::type_invariant]
    pub open(crate) spec fn wf(self) -> bool {
        self.0 <= U14::MAX
    }

    /// The value that holds `value`.
    pub open(crate) spec fn new_spec(value: u16) -> U14 {
        U14(value)
    }

    /// The number of which `lsb` holds the low seven bits and `msb` the next
    /// seven.
    pub open spec fn joined(lsb: U7, msb: U7) -> int {
        msb@ * 128 + lsb@
    }

    /// Creates a new U14 value from an (U7, U7) tuple containing the LSB and MSB.
    pub fn from_split_u7(value: (U7, U7)) -> (r: Self)
        ensures
            r@ == U14::joined(value.0, value.1),
    {
        let lsb: u8 = value.0.0;
        let msb: u8 = value.1.0;
        proof {
            use_type_invariant(&value.0);
            use_type_invariant(&value.1);
        }
        let low: u16 = lsb as u16;
        let high: u16 = msb as u16;
        assert(low <= 0x7F && high <= 0x7F ==> (low | (high << 7)) == high * 128 + low) by (bit_vector);
        U14(low | (high << 7))
    }

    /// Returns the LSB and MSB of the value as (U7, U7) tuple.
    pub fn split_u7(&self) -> (r: (U7, U7))
        ensures
            r.0@ == self@ % 128,
            r.1@ == self@ / 128,
            U14::joined(r.0, r.1) == self@,
    {
        proof {
            use_type_invariant(self);
        }
        let v: u16 = self.0;
        assert(v <= 0x3FFF ==> (v & 0x7F) == v % 128 && (v >> 7) == v / 128 && (v >> 7) <= 0x7F)
            by (bit_vector);
        let low: u16 = v & 0x7F;
        let high: u16 = v >> 7;
        (U7(low as u8), U7(high as u8))
    }

    /// Two values are equal exactly when they hold the same number, and a
    /// value is well formed exactly when its number is at most `MAX`.
    pub proof fn lemma_view(self, other: U14)
        ensures
            self@ == other@ <==> self == other,
            U14::new_spec(self@) == self,
            self.wf() <==> self@ <= U14::MAX,
    {
    }

    /// Splitting a value made of two 7-bit halves gives the halves back.
    pub proof fn lemma_split_of_joined(lsb: U7, msb: U7)
        requires
            lsb.wf(),
            msb.wf(),
        ensures
            U14::joined(lsb, msb) <= U14::MAX,
            U14::joined(lsb, msb) % 128 == lsb@,
            U14::joined(lsb, msb) / 128 == msb@,
    {
    }
}

impl TryFrom<u16> for U14 {
    type Error = InvalidU14;

    /// Validating construction: fails on a number above `MAX`.
    fn try_from(value: u16) -> (r: Result<Self, Self::Error>)
        ensures
            value <= U14::MAX ==> r is Ok && r->Ok_0@ == value,
            value > U14::MAX ==> r == Err::<U14, InvalidU14>(InvalidU14(value)),
    {
        if value > U14::MAX {
            Err(InvalidU14(value))
        } else {
            Ok(U14(value))
        }
    }
}

impl vstd::std_specs::convert::TryFromSpecImpl<u16> for U14 {
    open spec fn obeys_try_from_spec() -> bool {
        true
    }

    open spec fn try_from_spec(value: u16) -> Result<Self, Self::Error> {
        if value > U14::MAX {
            Err(InvalidU14(value))
        } else {
            Ok(U14::new_spec(value))
        }
    }
}

impl From<U14> for u16 {
    /// The number that the value holds, which is at most `U14::MAX`.
    fn from(value: U14) -> (r: u16)
        ensures
            r == value@,
            r <= U14::MAX,
    {
        proof {
            use_type_invariant(&value);
        }
        value.0
    }
}

impl vstd::std_specs::convert::FromSpecImpl<U14> for u16 {
    open spec fn obeys_from_spec() -> bool {
        true
    }

    open spec fn from_spec(value: U14) -> u16 {
        value@
    }
}

impl FromOverFlow<u16> for U14 {
    open spec fn from_overflow_spec(value: u16) -> U14 {
        U14::new_spec(value & 0x3FFF)
    }

    /// Overflow construction: keeps the low fourteen bits.
    fn from_overflow(value: u16) -> (r: U14)
        ensures
            r@ == value & 0x3FFF,
            r@ == value % 0x4000,
    {
        assert(value & 0x3FFF <= 0x3FFF && value & 0x3FFF == value % 0x4000) by (bit_vector);
        U14(value & 0x3FFF)
    }
}

impl FromClamped<u16> for U14 {
    open spec fn from_clamped_spec(value: u16) -> U14 {
        if value > U14::MAX {
            U14::new_spec(U14::MAX)
        } else {
            U14::new_spec(value)
        }
    }

    /// Clamped construction: a number above `MAX` becomes `MAX`.
    fn from_clamped(value: u16) -> (r: U14)
        ensures
            value <= U14::MAX ==> r@ == value,
            value > U14::MAX ==> r@ == U14::MAX,
    {
        if value > U14::MAX {
            U14(U14::MAX)
        } else {
            U14(value)
        }
    }
}

} // verus!
