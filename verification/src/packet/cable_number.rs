//! Enum representing the cable number of a packet.

use crate::message::data::u4::U4;
use crate::packet::UsbMidiEventPacketError;
use vstd::prelude::*;

verus! {

/// The Cable Number (CN) is a value ranging from 0x0 to 0xF
/// indicating the number assignment of the Embedded MIDI Jack associated
/// with the endpoint that is transferring the data
#[allow(missing_docs)]
#[derive(Debug, Clone, Copy, PartialEq, Eq, Hash, Structural)]
pub enum CableNumber {
    Cable0,
    Cable1,
    Cable2,
    Cable3,
    Cable4,
    Cable5,
    Cable6,
    Cable7,
    Cable8,
    Cable9,
    Cable10,
    Cable11,
    Cable12,
    Cable13,
    Cable14,
    Cable15,
}

impl View for CableNumber {
    type V = u8;

    /// The number on the wire, from 0x0 to 0xF.
    open spec fn view(&self) -> u8 {
        match self {
            CableNumber::Cable0 => 0x0,
            CableNumber::Cable1 => 0x1,
            CableNumber::Cable2 => 0x2,
            CableNumber::Cable3 => 0x3,
            CableNumber::Cable4 => 0x4,
            CableNumber::Cable5 => 0x5,
            CableNumber::Cable6 => 0x6,
            CableNumber::Cable7 => 0x7,
            CableNumber::Cable8 => 0x8,
            CableNumber::Cable9 => 0x9,
            CableNumber::Cable10 => 0xA,
            CableNumber::Cable11 => 0xB,
            CableNumber::Cable12 => 0xC,
            CableNumber::Cable13 => 0xD,
            CableNumber::Cable14 => 0xE,
            CableNumber::Cable15 => 0xF,
        }
    }
}

impl CableNumber {
    /// The value whose wire number is `value`, if there is one.
    pub open spec fn from_wire(value: u8) -> Option<CableNumber> {
        match value {
            0x0 => Some(CableNumber::Cable0),
            0x1 => Some(CableNumber::Cable1),
            0x2 => Some(CableNumber::Cable2),
            0x3 => Some(CableNumber::Cable3),
            0x4 => Some(CableNumber::Cable4),
            0x5 => Some(CableNumber::Cable5),
            0x6 => Some(CableNumber::Cable6),
            0x7 => Some(CableNumber::Cable7),
            0x8 => Some(CableNumber::Cable8),
            0x9 => Some(CableNumber::Cable9),
            0xA => Some(CableNumber::Cable10),
            0xB => Some(CableNumber::Cable11),
            0xC => Some(CableNumber::Cable12),
            0xD => Some(CableNumber::Cable13),
            0xE => Some(CableNumber::Cable14),
            0xF => Some(CableNumber::Cable15),
            _ => None,
        }
    }

    /// The sixteen values stand one to one for the numbers 0x0 to 0xF.
    pub proof fn lemma_wire(self, value: u8)
        ensures
            self@ <= 0xF,
            CableNumber::from_wire(self@) == Some(self),
            CableNumber::from_wire(value) is Some <==> value <= 0xF,
            CableNumber::from_wire(value) matches Some(v) ==> v@ == value,
    {
    }
}

impl Default for CableNumber {
    /// The first of the sixteen values.
    fn default() -> (r: CableNumber)
        ensures
            r == CableNumber::Cable0,
    {
        CableNumber::Cable0
    }
}

impl TryFrom<u8> for CableNumber {
    type Error = UsbMidiEventPacketError;

    /// The value with the wire number `value`; fails above 0xF.
    fn try_from(value: u8) -> (r: Result<Self, Self::Error>)
        ensures
            value <= 0xF ==> r is Ok && r->Ok_0@ == value,
            value > 0xF ==> r == Err::<CableNumber, UsbMidiEventPacketError>(
                UsbMidiEventPacketError::InvalidCableNumber(value),
            ),
    {
        match value {
            0x0 => Ok(CableNumber::Cable0),
            0x1 => Ok(CableNumber::Cable1),
            0x2 => Ok(CableNumber::Cable2),
            0x3 => Ok(CableNumber::Cable3),
            0x4 => Ok(CableNumber::Cable4),
            0x5 => Ok(CableNumber::Cable5),
            0x6 => Ok(CableNumber::Cable6),
            0x7 => Ok(CableNumber::Cable7),
            0x8 => Ok(CableNumber::Cable8),
            0x9 => Ok(CableNumber::Cable9),
            0xA => Ok(CableNumber::Cable10),
            0xB => Ok(CableNumber::Cable11),
            0xC => Ok(CableNumber::Cable12),
            0xD => Ok(CableNumber::Cable13),
            0xE => Ok(CableNumber::Cable14),
            0xF => Ok(CableNumber::Cable15),
            _ => Err(UsbMidiEventPacketError::InvalidCableNumber(value)),
        }
    }
}

impl vstd::std_specs::convert::TryFromSpecImpl<u8> for CableNumber {
    open spec fn obeys_try_from_spec() -> bool {
        true
    }

    open spec fn try_from_spec(value: u8) -> Result<Self, Self::Error> {
        match CableNumber::from_wire(value) {
            Some(v) => Ok(v),
            None => Err(UsbMidiEventPacketError::InvalidCableNumber(value)),
        }
    }
}

impl From<CableNumber> for u8 {
    /// The number on the wire.
    fn from(value: CableNumber) -> (r: u8)
        ensures
            r == value@,
            r <= 0xF,
    {
        match value {
            CableNumber::Cable0 => 0x0,
            CableNumber::Cable1 => 0x1,
            CableNumber::Cable2 => 0x2,
            CableNumber::Cable3 => 0x3,
            CableNumber::Cable4 => 0x4,
            CableNumber::Cable5 => 0x5,
            CableNumber::Cable6 => 0x6,
            CableNumber::Cable7 => 0x7,
            CableNumber::Cable8 => 0x8,
            CableNumber::Cable9 => 0x9,
            CableNumber::Cable10 => 0xA,
            CableNumber::Cable11 => 0xB,
            CableNumber::Cable12 => 0xC,
            CableNumber::Cable13 => 0xD,
            CableNumber::Cable14 => 0xE,
            CableNumber::Cable15 => 0xF,
        }
    }
}

impl vstd::std_specs::convert::FromSpecImpl<CableNumber> for u8 {
    open spec fn obeys_from_spec() -> bool {
        true
    }

    open spec fn from_spec(value: CableNumber) -> u8 {
        value@
    }
}

impl From<CableNumber> for U4 {
    /// The number on the wire as a 4-bit value.
    fn from(value: CableNumber) -> (r: U4)
        ensures
            r@ == value@,
    {
        U4::from_overflowing_u8(u8::from(value))
    }
}

impl vstd::std_specs::convert::FromSpecImpl<CableNumber> for U4 {
    open spec fn obeys_from_spec() -> bool {
        true
    }

    open spec fn from_spec(value: CableNumber) -> U4 {
        U4::new_spec(value@)
    }
}

} // verus!
