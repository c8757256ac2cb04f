//! Enum representing the code index number of a packet.

use crate::message::data::u4::U4;
use crate::message::Message;
use crate::packet::UsbMidiEventPacketError;
use vstd::prelude::*;

verus! {

/// The Code Index Number (CIN) indicates the classification
/// of the bytes in the MIDI_x fields.
#[derive(Debug, Clone, Copy, PartialEq, Eq, Hash, Structural)]
pub enum CodeIndexNumber {
    /// Miscellaneous function codes. Reserved for future extensions.
    MiscFunction,
    /// Cable events. Reserved for future expansion.
    CableEvents,
    /// Two-byte System Common messages like MTC, SongSelect, etc.
    SystemCommon2Bytes,
    /// Three-byte System Common messages like SPP, etc.
    SystemCommon3Bytes,
    /// SysEx starts or continues.
    SysexStartsOrContinues,
    /// Single-byte System Common Message or SysEx ends with following single byte.
    SystemCommon1Byte,
    /// SysEx ends with following two bytes.
    SysexEnds2Bytes,
    /// SysEx ends with following three bytes.
    SysexEnds3Bytes,
    /// Note-off.
    NoteOff,
    /// Note-on.
    NoteOn,
    /// Poly-KeyPress.
    PolyKeyPress,
    /// Control Change.
    ControlChange,
    /// Program Change.
    ProgramChange,
    /// Channel Pressure.
    ChannelPressure,
    /// PitchBend Change.
    PitchBendChange,
    /// Single Byte.
    SingleByte,
}

impl View for CodeIndexNumber {
    type V = u8;

    /// The number on the wire, from 0x0 to 0xF.
    open spec fn view(&self) -> u8 {
        match self {
            CodeIndexNumber::MiscFunction => 0x0,
            CodeIndexNumber::CableEvents => 0x1,
            CodeIndexNumber::SystemCommon2Bytes => 0x2,
            CodeIndexNumber::SystemCommon3Bytes => 0x3,
            CodeIndexNumber::SysexStartsOrContinues => 0x4,
            CodeIndexNumber::SystemCommon1Byte => 0x5,
            CodeIndexNumber::SysexEnds2Bytes => 0x6,
            CodeIndexNumber::SysexEnds3Bytes => 0x7,
            CodeIndexNumber::NoteOff => 0x8,
            CodeIndexNumber::NoteOn => 0x9,
            CodeIndexNumber::PolyKeyPress => 0xA,
            CodeIndexNumber::ControlChange => 0xB,
            CodeIndexNumber::ProgramChange => 0xC,
            CodeIndexNumber::ChannelPressure => 0xD,
            CodeIndexNumber::PitchBendChange => 0xE,
            CodeIndexNumber::SingleByte => 0xF,
        }
    }
}

impl CodeIndexNumber {
    /// The value whose wire number is `value`, if there is one.
    pub open spec fn from_wire(value: u8) -> Option<CodeIndexNumber> {
        match value {
            0x0 => Some(CodeIndexNumber::MiscFunction),
            0x1 => Some(CodeIndexNumber::CableEvents),
            0x2 => Some(CodeIndexNumber::SystemCommon2Bytes),
            0x3 => Some(CodeIndexNumber::SystemCommon3Bytes),
            0x4 => Some(CodeIndexNumber::SysexStartsOrContinues),
            0x5 => Some(CodeIndexNumber::SystemCommon1Byte),
            0x6 => Some(CodeIndexNumber::SysexEnds2Bytes),
            0x7 => Some(CodeIndexNumber::SysexEnds3Bytes),
            0x8 => Some(CodeIndexNumber::NoteOff),
            0x9 => Some(CodeIndexNumber::NoteOn),
            0xA => Some(CodeIndexNumber::PolyKeyPress),
            0xB => Some(CodeIndexNumber::ControlChange),
            0xC => Some(CodeIndexNumber::ProgramChange),
            0xD => Some(CodeIndexNumber::ChannelPressure),
            0xE => Some(CodeIndexNumber::PitchBendChange),
            0xF => Some(CodeIndexNumber::SingleByte),
            _ => None,
        }
    }

    /// The number of payload bytes that a packet with this code carries.
    ///
    /// The two reserved codes count as three bytes, so that no data can get lost.
    pub open spec fn size(self) -> nat {
        match self {
            CodeIndexNumber::SystemCommon1Byte | CodeIndexNumber::SingleByte => 1,
            CodeIndexNumber::SystemCommon2Bytes
            | CodeIndexNumber::SysexEnds2Bytes
            | CodeIndexNumber::ProgramChange
            | CodeIndexNumber::ChannelPressure => 2,
            CodeIndexNumber::MiscFunction
            | CodeIndexNumber::CableEvents
            | CodeIndexNumber::SystemCommon3Bytes
            | CodeIndexNumber::SysexStartsOrContinues
            | CodeIndexNumber::SysexEnds3Bytes
            | CodeIndexNumber::NoteOff
            | CodeIndexNumber::NoteOn
            | CodeIndexNumber::PolyKeyPress
            | CodeIndexNumber::ControlChange
            | CodeIndexNumber::PitchBendChange => 3,
        }
    }

    /// The code of the channel voice message whose status byte is `status`,
    /// for a status byte from 0x80 to 0xEF: the code with the number that the
    /// high nibble of the status byte holds.
    pub open spec fn of_voice_status(status: u8) -> CodeIndexNumber {
        CodeIndexNumber::from_wire(status / 16).unwrap()
    }

    /// Whether the payload holds the SysEx terminator 0xF7 at `position`.
    pub open spec fn ends_at(payload: Seq<u8>, position: int) -> bool {
        position < payload.len() && payload[position] == 0xF7
    }

    /// The code of a payload that belongs to a SysEx message. The
    /// terminator as second byte ends the message with two bytes, as third
    /// byte with three. Without a terminator there the message goes on with
    /// three bytes, and fewer bytes have no code.
    pub open spec fn of_sysex(payload: Seq<u8>) -> Result<CodeIndexNumber, UsbMidiEventPacketError> {
        if CodeIndexNumber::ends_at(payload, 1) {
            Ok(CodeIndexNumber::SysexEnds2Bytes)
        } else if CodeIndexNumber::ends_at(payload, 2) {
            Ok(CodeIndexNumber::SysexEnds3Bytes)
        } else if payload.len() >= 3 {
            Ok(CodeIndexNumber::SysexStartsOrContinues)
        } else {
            Err(UsbMidiEventPacketError::InvalidPayloadSize)
        }
    }

    /// The code of a payload whose first byte is a System message status,
    /// from 0xF0 to 0xFF.
    pub open spec fn of_system(payload: Seq<u8>) -> Result<CodeIndexNumber, UsbMidiEventPacketError> {
        let status = payload[0];
        if status == 0xF0 {
            CodeIndexNumber::of_sysex(payload)
        } else if status == 0xF1 || status == 0xF3 {
            Ok(CodeIndexNumber::SystemCommon2Bytes)
        } else if status == 0xF2 {
            Ok(CodeIndexNumber::SystemCommon3Bytes)
        } else if status == 0xF6 || status == 0xF7 {
            Ok(CodeIndexNumber::SystemCommon1Byte)
        } else if status == 0xF4 || status == 0xF5 || status == 0xFD {
            Err(UsbMidiEventPacketError::InvalidPayloadStatus)
        } else {
            Ok(CodeIndexNumber::SingleByte)
        }
    }

    /// The code that classifies a MIDI event payload, told from its bytes alone.
    ///
    /// A payload that starts with a data byte is taken for a part of a SysEx
    /// message: alone it is a single byte, with two more it continues or ends
    /// the message, and with one more it has no valid shape unless that byte
    /// is the terminator.
    pub open spec fn of_payload(payload: Seq<u8>) -> Result<CodeIndexNumber, UsbMidiEventPacketError> {
        if payload.len() == 0 {
            Err(UsbMidiEventPacketError::EmptyPayload)
        } else if payload[0] >= 0xF0 {
            CodeIndexNumber::of_system(payload)
        } else if payload[0] >= 0x80 {
            Ok(CodeIndexNumber::of_voice_status(payload[0]))
        } else if payload.len() == 1 {
            Ok(CodeIndexNumber::SingleByte)
        } else {
            CodeIndexNumber::of_sysex(payload)
        }
    }

    /// Creates a new number from a MIDI event payload.
    ///
    /// The detection goes by the status byte and does not ask whether the
    /// payload has all the bytes of its message. Only for the bytes of a
    /// SysEx message it looks for the terminator and at the length.
    pub fn try_from_payload(payload: &[u8]) -> (r: Result<Self, UsbMidiEventPacketError>)
        ensures
            r == CodeIndexNumber::of_payload(payload@),
    {
        if payload.len() == 0 {
            return Err(UsbMidiEventPacketError::EmptyPayload);
        }
        let status: u8 = payload[0];

        if status < 0xF0 {
            assert(status & 0xF0 == (status / 16) * 16) by (bit_vector);
            match status & 0xF0 {
                0x80 => Ok(Self::NoteOff),
                0x90 => Ok(Self::NoteOn),
                0xA0 => Ok(Self::PolyKeyPress),
                0xB0 => Ok(Self::ControlChange),
                0xC0 => Ok(Self::ProgramChange),
                0xD0 => Ok(Self::ChannelPressure),
                0xE0 => Ok(Self::PitchBendChange),
                _ => {
                    if payload.len() > 1 && payload[1] == 0xF7 {
                        Ok(Self::SysexEnds2Bytes)
                    } else if payload.len() > 2 && payload[2] == 0xF7 {
                        Ok(Self::SysexEnds3Bytes)
                    } else if payload.len() == 1 {
                        Ok(Self::SingleByte)
                    } else if payload.len() > 2 {
                        Ok(Self::SysexStartsOrContinues)
                    } else {
                        Err(UsbMidiEventPacketError::InvalidPayloadSize)
                    }
                },
            }
        } else {
            match status {
                0xF0 => {
                    if payload.len() > 1 && payload[1] == 0xF7 {
                        Ok(Self::SysexEnds2Bytes)
                    } else if payload.len() > 2 && payload[2] == 0xF7 {
                        Ok(Self::SysexEnds3Bytes)
                    } else if payload.len() > 2 {
                        Ok(Self::SysexStartsOrContinues)
                    } else {
                        Err(UsbMidiEventPacketError::InvalidPayloadSize)
                    }
                },
                0xF1 | 0xF3 => Ok(Self::SystemCommon2Bytes),
                0xF2 => Ok(Self::SystemCommon3Bytes),
                0xF6 | 0xF7 => Ok(Self::SystemCommon1Byte),
                0xF8 | 0xF9 | 0xFA | 0xFB | 0xFC | 0xFE | 0xFF => Ok(Self::SingleByte),
                _ => Err(UsbMidiEventPacketError::InvalidPayloadStatus),
            }
        }
    }

    /// Returns the code index number that classifies a message.
    pub fn find_from_message(value: &Message) -> (r: CodeIndexNumber)
        ensures
            r == value.cin(),
    {
        value.code_index_number()
    }

    /// Returns the size of the MIDI_x event payload in bytes.
    pub fn payload_size(&self) -> (r: usize)
        ensures
            r == self.size(),
            1 <= r <= 3,
    {
        match self {
            Self::SystemCommon1Byte | Self::SingleByte => 1,
            Self::SystemCommon2Bytes
            | Self::SysexEnds2Bytes
            | Self::ProgramChange
            | Self::ChannelPressure => 2,
            Self::SystemCommon3Bytes
            | Self::SysexEnds3Bytes
            | Self::SysexStartsOrContinues
            | Self::NoteOff
            | Self::NoteOn
            | Self::PolyKeyPress
            | Self::ControlChange
            | Self::PitchBendChange => 3,
            // These variants are reserved for future use.
            // We assume the maximum length of 3 bytes so that no data can get lost.
            Self::MiscFunction | Self::CableEvents => 3,
        }
    }

    /// The sixteen values stand one to one for the numbers 0x0 to 0xF.
    pub proof fn lemma_wire(self, value: u8)
        ensures
            self@ <= 0xF,
            CodeIndexNumber::from_wire(self@) == Some(self),
            CodeIndexNumber::from_wire(value) is Some <==> value <= 0xF,
            CodeIndexNumber::from_wire(value) matches Some(v) ==> v@ == value,
    {
    }
}

impl TryFrom<u8> for CodeIndexNumber {
    type Error = UsbMidiEventPacketError;

    /// The value with the wire number `value`; fails above 0xF.
    fn try_from(value: u8) -> (r: Result<Self, Self::Error>)
        ensures
            value <= 0xF ==> r is Ok && r->Ok_0@ == value,
            value > 0xF ==> r == Err::<CodeIndexNumber, UsbMidiEventPacketError>(
                UsbMidiEventPacketError::InvalidCodeIndexNumber(value),
            ),
    {
        match value {
            0x0 => Ok(CodeIndexNumber::MiscFunction),
            0x1 => Ok(CodeIndexNumber::CableEvents),
            0x2 => Ok(CodeIndexNumber::SystemCommon2Bytes),
            0x3 => Ok(CodeIndexNumber::SystemCommon3Bytes),
            0x4 => Ok(CodeIndexNumber::SysexStartsOrContinues),
            0x5 => Ok(CodeIndexNumber::SystemCommon1Byte),
            0x6 => Ok(CodeIndexNumber::SysexEnds2Bytes),
            0x7 => Ok(CodeIndexNumber::SysexEnds3Bytes),
            0x8 => Ok(CodeIndexNumber::NoteOff),
            0x9 => Ok(CodeIndexNumber::NoteOn),
            0xA => Ok(CodeIndexNumber::PolyKeyPress),
            0xB => Ok(CodeIndexNumber::ControlChange),
            0xC => Ok(CodeIndexNumber::ProgramChange),
            0xD => Ok(CodeIndexNumber::ChannelPressure),
            0xE => Ok(CodeIndexNumber::PitchBendChange),
            0xF => Ok(CodeIndexNumber::SingleByte),
            _ => Err(UsbMidiEventPacketError::InvalidCodeIndexNumber(value)),
        }
    }
}

impl vstd::std_specs::convert::TryFromSpecImpl<u8> for CodeIndexNumber {
    open spec fn obeys_try_from_spec() -> bool {
        true
    }

    open spec fn try_from_spec(value: u8) -> Result<Self, Self::Error> {
        match CodeIndexNumber::from_wire(value) {
            Some(v) => Ok(v),
            None => Err(UsbMidiEventPacketError::InvalidCodeIndexNumber(value)),
        }
    }
}

impl From<CodeIndexNumber> for u8 {
    /// The number on the wire.
    fn from(value: CodeIndexNumber) -> (r: u8)
        ensures
            r == value@,
            r <= 0xF,
    {
        match value {
            CodeIndexNumber::MiscFunction => 0x0,
            CodeIndexNumber::CableEvents => 0x1,
            CodeIndexNumber::SystemCommon2Bytes => 0x2,
            CodeIndexNumber::SystemCommon3Bytes => 0x3,
            CodeIndexNumber::SysexStartsOrContinues => 0x4,
            CodeIndexNumber::SystemCommon1Byte => 0x5,
            CodeIndexNumber::SysexEnds2Bytes => 0x6,
            CodeIndexNumber::SysexEnds3Bytes => 0x7,
            CodeIndexNumber::NoteOff => 0x8,
            CodeIndexNumber::NoteOn => 0x9,
            CodeIndexNumber::PolyKeyPress => 0xA,
            CodeIndexNumber::ControlChange => 0xB,
            CodeIndexNumber::ProgramChange => 0xC,
            CodeIndexNumber::ChannelPressure => 0xD,
            CodeIndexNumber::PitchBendChange => 0xE,
            CodeIndexNumber::SingleByte => 0xF,
        }
    }
}

impl vstd::std_specs::convert::FromSpecImpl<CodeIndexNumber> for u8 {
    open spec fn obeys_from_spec() -> bool {
        true
    }

    open spec fn from_spec(value: CodeIndexNumber) -> u8 {
        value@
    }
}

impl From<CodeIndexNumber> for U4 {
    /// The number on the wire as a 4-bit value.
    fn from(value: CodeIndexNumber) -> (r: U4)
        ensures
            r@ == value@,
    {
        U4::from_overflowing_u8(u8::from(value))
    }
}

impl vstd::std_specs::convert::FromSpecImpl<CodeIndexNumber> for U4 {
    open spec fn obeys_from_spec() -> bool {
        true
    }

    open spec fn from_spec(value: CodeIndexNumber) -> U4 {
        U4::new_spec(value@)
    }
}

} // verus!
