//! A primitive value with 7-bit length.

use crate::message::data::{FromClamped, FromOverFlow};
use vstd::prelude::*;

verus! {

/// A primitive value that can be from 0-0x7F
#[derive(Debug, Clone, Copy, PartialEq, Eq, PartialOrd, Ord, Hash, Structural)]
pub struct U7(pub(crate) u8);

/// Error representing that this value is not a valid u7
#[derive(Debug, Clone, Copy, PartialEq, Eq, Structural)]
pub struct InvalidU7(pub u8);

impl View for U7 {
    type V = u8;

    /// The number that the value holds.
    open(crate) spec fn view(&self) -> u8 {
        self.0
    }
}

impl U7 {
    /// Maximum number that the type holds.
    pub const MAX: u8 = 0x7F;

    /// Minimum number that the type holds.
    pub const MIN: u8 = 0;

    /// The stored number never exceeds `MAX`.
    #[verifier::type_invariant]
    pub open(crate) spec fn wf(self) -> bool {
        self.0 <= U7::MAX
    }

    /// The value that holds `value`.
    pub open(crate) spec fn new_spec(value: u8) -> U7 {
        U7(value)
    }

    /// Two values are equal exactly when they hold the same number, and a
    /// value is well formed exactly when its number is at most `MAX`.
    pub proof fn lemma_view(self, other: U7)
        ensures
            self@ == other@ <==> self == other,
            U7::new_spec(self@) == self,
            self.wf() <==> self@ <= U7::MAX,
    {
    }
}

impl TryFrom<u8> for U7 {
    type Error = InvalidU7;

    /// Validating construction: fails on a number above `MAX`.
    fn try_from(value: u8) -> (r: Result<Self, Self::Error>)
        ensures
            value <= U7::MAX ==> r is Ok && r->Ok_0@ == value,
            value > U7::MAX ==> r == Err::<U7, InvalidU7>(InvalidU7(value)),
    {
        if value > U7::MAX {
            Err(InvalidU7(value))
        } else {
            Ok(U7(value))
        }
    }
}

impl vstd::std_specs::convert::TryFromSpecImpl<u8> for U7 {
    open spec fn obeys_try_from_spec() -> bool {
        true
    }

    open spec fn try_from_spec(value: u8) -> Result<Self, Self::Error> {
        if value > U7::MAX {
            Err(InvalidU7(value))
        } else {
            Ok(U7::new_spec(value))
        }
    }
}

impl From<U7> for u8 {
    /// The number that the value holds, which is at most `U7::MAX`.
    fn from(value: U7) -> (r: u8)
        ensures
            r == value@,
            r <= U7::MAX,
    {
        proof {
            use_type_invariant(&value);
        }
        value.0
    }
}

impl vstd::std_specs::convert::FromSpecImpl<U7> for u8 {
    open spec fn obeys_from_spec() -> bool {
        true
    }

    open spec fn from_spec(value: U7) -> u8 {
        value@
    }
}

impl FromOverFlow<u8> for U7 {
    open spec fn from_overflow_spec(value: u8) -> U7 {
        U7::new_spec(value & 0x7F)
    }

    /// Overflow construction: keeps the low seven bits.
    fn from_overflow(value: u8) -> (r: U7)
        ensures
            r@ == value & 0x7F,
            r@ == value % 128,
    {
        assert(value & 0x7F <= 0x7F && value & 0x7F == value % 128) by (bit_vector);
        U7(value & 0x7F)
    }
}

impl FromClamped<u8> for U7 {
    open spec fn from_clamped_spec(value: u8) -> U7 {
        if value > U7::MAX {
            U7::new_spec(U7::MAX)
        } else {
            U7::new_spec(value)
        }
    }

    /// Clamped construction: a number above `MAX` becomes `MAX`.
    fn from_clamped(value: u8) -> (r: U7)
        ensures
            value <= U7::MAX ==> r@ == value,
            value > U7::MAX ==> r@ == U7::MAX,
    {
        if value > U7::MAX {
            U7(U7::MAX)
        } else {
            U7(value)
        }
    }
}

} // verus!
