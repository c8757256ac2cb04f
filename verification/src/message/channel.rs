//! Enum representing the MIDI channel.

use vstd::prelude::*;

verus! {

/// The Channel is a value ranging from 0x0 to 0xF.
///
/// This is a standard MIDI concept. Note that `Channel1` is 0 on the wire.
#[allow(missing_docs)]
#[derive(Debug, Clone, Copy, PartialEq, Eq, Hash, Structural)]
pub enum Channel {
    Channel1,
    Channel2,
    Channel3,
    Channel4,
    Channel5,
    Channel6,
    Channel7,
    Channel8,
    Channel9,
    Channel10,
    Channel11,
    Channel12,
    Channel13,
    Channel14,
    Channel15,
    Channel16,
}

/// Error representing that this value is not a valid channel
#[derive(Debug, Clone, Copy, PartialEq, Eq, Structural)]
pub struct InvalidChannel(pub u8);

impl View for Channel {
    type V = u8;

    /// The channel's number on the wire, from 0 to 15.
    open spec fn view(&self) -> u8 {
        match self {
            Channel::Channel1 => 0,
            Channel::Channel2 => 1,
            Channel::Channel3 => 2,
            Channel::Channel4 => 3,
            Channel::Channel5 => 4,
            Channel::Channel6 => 5,
            Channel::Channel7 => 6,
            Channel::Channel8 => 7,
            Channel::Channel9 => 8,
            Channel::Channel10 => 9,
            Channel::Channel11 => 10,
            Channel::Channel12 => 11,
            Channel::Channel13 => 12,
            Channel::Channel14 => 13,
            Channel::Channel15 => 14,
            Channel::Channel16 => 15,
        }
    }
}

impl Channel {
    /// The channel whose wire number is `value`, if there is one.
    pub open spec fn from_wire(value: u8) -> Option<Channel> {
        match value {
            0 => Some(Channel::Channel1),
            1 => Some(Channel::Channel2),
            2 => Some(Channel::Channel3),
            3 => Some(Channel::Channel4),
            4 => Some(Channel::Channel5),
            5 => Some(Channel::Channel6),
            6 => Some(Channel::Channel7),
            7 => Some(Channel::Channel8),
            8 => Some(Channel::Channel9),
            9 => Some(Channel::Channel10),
            10 => Some(Channel::Channel11),
            11 => Some(Channel::Channel12),
            12 => Some(Channel::Channel13),
            13 => Some(Channel::Channel14),
            14 => Some(Channel::Channel15),
            15 => Some(Channel::Channel16),
            _ => None,
        }
    }

    /// The sixteen channels stand one to one for the numbers 0 to 15.
    pub proof fn lemma_wire(self, value: u8)
        ensures
            self@ <= 15,
            Channel::from_wire(self@) == Some(self),
            Channel::from_wire(value) is Some <==> value <= 15,
            Channel::from_wire(value) matches Some(c) ==> c@ == value,
    {
    }
}

impl TryFrom<u8> for Channel {
    type Error = InvalidChannel;

    /// The channel with the wire number `value`; fails above 15.
    fn try_from(value: u8) -> (r: Result<Self, Self::Error>)
        ensures
            value <= 15 ==> r is Ok && r->Ok_0@ == value,
            value > 15 ==> r == Err::<Channel, InvalidChannel>(InvalidChannel(value)),
    {
        match value {
            0 => Ok(Channel::Channel1),
            1 => Ok(Channel::Channel2),
            2 => Ok(Channel::Channel3),
            3 => Ok(Channel::Channel4),
            4 => Ok(Channel::Channel5),
            5 => Ok(Channel::Channel6),
            6 => Ok(Channel::Channel7),
            7 => Ok(Channel::Channel8),
            8 => Ok(Channel::Channel9),
            9 => Ok(Channel::Channel10),
            10 => Ok(Channel::Channel11),
            11 => Ok(Channel::Channel12),
            12 => Ok(Channel::Channel13),
            13 => Ok(Channel::Channel14),
            14 => Ok(Channel::Channel15),
            15 => Ok(Channel::Channel16),
            _ => Err(InvalidChannel(value)),
        }
    }
}

impl vstd::std_specs::convert::TryFromSpecImpl<u8> for Channel {
    open spec fn obeys_try_from_spec() -> bool {
        true
    }

    open spec fn try_from_spec(value: u8) -> Result<Self, Self::Error> {
        match Channel::from_wire(value) {
            Some(channel) => Ok(channel),
            None => Err(InvalidChannel(value)),
        }
    }
}

impl From<Channel> for u8 {
    /// The channel's number on the wire.
    fn from(src: Channel) -> (r: u8)
        ensures
            r == src@,
            r <= 15,
    {
        match src {
            Channel::Channel1 => 0,
            Channel::Channel2 => 1,
            Channel::Channel3 => 2,
            Channel::Channel4 => 3,
            Channel::Channel5 => 4,
            Channel::Channel6 => 5,
            Channel::Channel7 => 6,
            Channel::Channel8 => 7,
            Channel::Channel9 => 8,
            Channel::Channel10 => 9,
            Channel::Channel11 => 10,
            Channel::Channel12 => 11,
            Channel::Channel13 => 12,
            Channel::Channel14 => 13,
            Channel::Channel15 => 14,
            Channel::Channel16 => 15,
        }
    }
}

impl vstd::std_specs::convert::FromSpecImpl<Channel> for u8 {
    open spec fn obeys_from_spec() -> bool {
        true
    }

    open spec fn from_spec(src: Channel) -> u8 {
        src@
    }
}

} // verus!
