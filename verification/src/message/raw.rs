//! Type for the raw MIDI message.

use crate::message::data::u7::U7;
use vstd::prelude::*;

verus! {

/// Represents the payloads that the midi message may contain.
#[derive(Debug, Clone, Copy, PartialEq, Eq, Structural)]
pub enum Payload {
    /// No payload.
    Empty,
    /// One-byte payload.
    SingleByte(U7),
    /// Two-byte payload.
    DoubleByte(U7, U7),
}

/// A struct that captures the valid states.
///
/// A midi message may be in, but without domain logic mainly useful for serializing.
/// This represents the possible 'shapes', doesn't verify if the data makes sense though!
#[derive(Debug, Clone, Copy, PartialEq, Eq, Structural)]
pub struct Raw {
    /// Status byte.
    pub status: u8,
    /// Payload of maximum 2 bytes.
    pub payload: Payload,
}

impl Payload {
    /// The data bytes of the payload, in the order in which they are sent.
    pub open spec fn bytes(self) -> Seq<u8> {
        match self {
            Payload::Empty => seq![],
            Payload::SingleByte(byte) => seq![byte@],
            Payload::DoubleByte(byte1, byte2) => seq![byte1@, byte2@],
        }
    }

    /// Every data byte is a 7-bit value.
    pub open spec fn wf(self) -> bool {
        match self {
            Payload::Empty => true,
            Payload::SingleByte(byte) => byte.wf(),
            Payload::DoubleByte(byte1, byte2) => byte1.wf() && byte2.wf(),
        }
    }
}

impl Raw {
    /// The status byte followed by the data bytes.
    pub open spec fn bytes(self) -> Seq<u8> {
        seq![self.status] + self.payload.bytes()
    }
}

} // verus!
