//! Enum representing the MIDI message.

pub mod channel;
pub mod control_function;
pub mod data;
pub mod notes;
pub mod raw;

use crate::message::channel::Channel;
use crate::message::control_function::ControlFunction;
use crate::message::data::u4::U4;
use crate::message::data::u7::U7;
use crate::message::data::FromClamped;
use crate::message::notes::Note;
use crate::message::raw::{Payload, Raw};
use crate::packet::cable_number::CableNumber;
use crate::packet::code_index_number::CodeIndexNumber;
use crate::packet::{UsbMidiEventPacket, UsbMidiEventPacketError};
use vstd::prelude::*;
use vstd::slice::slice_subrange;

verus! {

/// The velocity of a note is a 7-bit value.
pub type Velocity = U7;

/// Represents midi messages.
///
/// SysEx messages are not among them: they are unbounded and travel as raw
/// packet payloads.
#[derive(Debug, Clone, Copy, PartialEq, Eq, Hash, Structural)]
pub enum Message {
    /// Note Off message.
    NoteOff(Channel, Note, Velocity),
    /// Note On message.
    NoteOn(Channel, Note, Velocity),
    /// Polyphonic aftertouch (poly-pressure) message.
    PolyphonicAftertouch(Channel, Note, U7),
    /// Program change message.
    ProgramChange(Channel, U7),
    /// Channel aftertouch message.
    ChannelAftertouch(Channel, U7),
    /// Pitchwheel message.
    PitchWheelChange(Channel, U7, U7),
    /// Control Change (CC) message.
    ControlChange(Channel, ControlFunction, U7),
    /// MTC Quarter Frame message.
    MtcQuarterFrame(U7),
    /// Song Position Pointer message.
    SongPositionPointer(U7, U7),
    /// Song Select message.
    SongSelect(U7),
    /// Tune Request message.
    TuneRequest,
    /// Timing Clock message.
    TimingClock,
    /// Tick message.
    Tick,
    /// Start message.
    Start,
    /// Continue message.
    Continue,
    /// Stop message.
    Stop,
    /// Active Sensing message.
    ActiveSensing,
    /// Reset message.
    Reset,
}

/// Status of a Note Off message on the first channel.
pub const NOTE_OFF_MASK: u8 = 0b1000_0000;

/// Status of a Note On message on the first channel.
pub const NOTE_ON_MASK: u8 = 0b1001_0000;

/// Status of a Polyphonic Aftertouch message on the first channel.
pub const POLYPHONIC_MASK: u8 = 0b1010_0000;

/// Status of a Program Change message on the first channel.
pub const PROGRAM_MASK: u8 = 0b1100_0000;

/// Status of a Channel Aftertouch message on the first channel.
pub const CHANNEL_AFTERTOUCH_MASK: u8 = 0b1101_0000;

/// Status of a Pitch Wheel Change message on the first channel.
pub const PITCH_BEND_MASK: u8 = 0b1110_0000;

/// Status of a Control Change message on the first channel.
pub const CONTROL_CHANGE_MASK: u8 = 0b1011_0000;

/// Status of the MTC Quarter Frame message.
pub const MTC_QUARTER_FRAME: u8 = 0xF1;

/// Status of the Song Position Pointer message.
pub const SONG_POSITION_POINTER: u8 = 0xF2;

/// Status of the Song Select message.
pub const SONG_SELECT: u8 = 0xF3;

/// Status of the Tune Request message.
pub const TUNE_REQUEST: u8 = 0xF6;

/// Status of the Timing Clock message.
pub const TIMING_CLOCK: u8 = 0xF8;

/// Status of the Tick message.
pub const TICK: u8 = 0xF9;

/// Status of the Start message.
pub const START: u8 = 0xFA;

/// Status of the Continue message.
pub const CONTINUE: u8 = 0xFB;

/// Status of the Stop message.
pub const STOP: u8 = 0xFC;

/// Status of the Active Sensing message.
pub const ACTIVE_SENSING: u8 = 0xFE;

/// Status of the Reset message.
pub const RESET: u8 = 0xFF;

/// The data byte at `index` as a 7-bit value: a byte above 0x7F counts as
/// 0x7F, and a byte that is not there is missing.
pub open spec fn data_at(data: Seq<u8>, index: int) -> Result<U7, UsbMidiEventPacketError> {
    if index < data.len() {
        Ok(U7::from_clamped_spec(data[index]))
    } else {
        Err(UsbMidiEventPacketError::MissingDataPacket)
    }
}

/// The two data bytes that follow the status byte.
pub open spec fn data_pair(data: Seq<u8>) -> Result<(U7, U7), UsbMidiEventPacketError> {
    match data_at(data, 1) {
        Err(e) => Err(e),
        Ok(first) => match data_at(data, 2) {
            Err(e) => Err(e),
            Ok(second) => Ok((first, second)),
        },
    }
}

/// The note that follows the status byte: a byte above 0x7F is no note.
pub open spec fn note_at(data: Seq<u8>) -> Result<Note, UsbMidiEventPacketError> {
    if 1 < data.len() {
        match Note::from_wire(data[1]) {
            Some(note) => Ok(note),
            None => Err(UsbMidiEventPacketError::InvalidNote(data[1])),
        }
    } else {
        Err(UsbMidiEventPacketError::MissingDataPacket)
    }
}

/// The note and the data byte that follow the status byte.
pub open spec fn note_pair(data: Seq<u8>) -> Result<(Note, U7), UsbMidiEventPacketError> {
    match note_at(data) {
        Err(e) => Err(e),
        Ok(note) => match data_at(data, 2) {
            Err(e) => Err(e),
            Ok(value) => Ok((note, value)),
        },
    }
}

impl Message {
    /// Every data value of the message is in the 7-bit range.
    pub open spec fn wf(self) -> bool {
        match self {
            Message::NoteOff(_, _, v) | Message::NoteOn(_, _, v) | Message::PolyphonicAftertouch(
                _,
                _,
                v,
            ) => v.wf(),
            Message::ProgramChange(_, v) | Message::ChannelAftertouch(_, v) => v.wf(),
            Message::PitchWheelChange(_, lsb, msb) => lsb.wf() && msb.wf(),
            Message::ControlChange(_, control, v) => control.0.wf() && v.wf(),
            Message::MtcQuarterFrame(v) | Message::SongSelect(v) => v.wf(),
            Message::SongPositionPointer(lsb, msb) => lsb.wf() && msb.wf(),
            _ => true,
        }
    }

    /// The status byte of the message: for a channel voice message the
    /// message type in the high nibble and the channel in the low nibble, for
    /// a system message its fixed code.
    pub open spec fn status(self) -> u8 {
        match self {
            Message::NoteOff(channel, _, _) => (NOTE_OFF_MASK + channel@) as u8,
            Message::NoteOn(channel, _, _) => (NOTE_ON_MASK + channel@) as u8,
            Message::PolyphonicAftertouch(channel, _, _) => (POLYPHONIC_MASK + channel@) as u8,
            Message::ProgramChange(channel, _) => (PROGRAM_MASK + channel@) as u8,
            Message::ChannelAftertouch(channel, _) => (CHANNEL_AFTERTOUCH_MASK + channel@) as u8,
            Message::PitchWheelChange(channel, _, _) => (PITCH_BEND_MASK + channel@) as u8,
            Message::ControlChange(channel, _, _) => (CONTROL_CHANGE_MASK + channel@) as u8,
            Message::MtcQuarterFrame(_) => MTC_QUARTER_FRAME,
            Message::SongPositionPointer(_, _) => SONG_POSITION_POINTER,
            Message::SongSelect(_) => SONG_SELECT,
            Message::TuneRequest => TUNE_REQUEST,
            Message::TimingClock => TIMING_CLOCK,
            Message::Tick => TICK,
            Message::Start => START,
            Message::Continue => CONTINUE,
            Message::Stop => STOP,
            Message::ActiveSensing => ACTIVE_SENSING,
            Message::Reset => RESET,
        }
    }

    /// The data that follows the status byte.
    pub open spec fn payload(self) -> Payload {
        match self {
            Message::NoteOff(_, note, v) | Message::NoteOn(_, note, v)
            | Message::PolyphonicAftertouch(_, note, v) => Payload::DoubleByte(
                U7::new_spec(note@),
                v,
            ),
            Message::ProgramChange(_, v) | Message::ChannelAftertouch(_, v) => Payload::SingleByte(
                v,
            ),
            Message::PitchWheelChange(_, lsb, msb) => Payload::DoubleByte(lsb, msb),
            Message::ControlChange(_, control, v) => Payload::DoubleByte(control.0, v),
            Message::MtcQuarterFrame(v) | Message::SongSelect(v) => Payload::SingleByte(v),
            Message::SongPositionPointer(lsb, msb) => Payload::DoubleByte(lsb, msb),
            _ => Payload::Empty,
        }
    }

    /// The raw shape of the message.
    pub open spec fn raw(self) -> Raw {
        Raw { status: self.status(), payload: self.payload() }
    }

    /// The bytes of the message as MIDI sends them: the status byte and the
    /// data bytes.
    pub open spec fn bytes(self) -> Seq<u8> {
        self.raw().bytes()
    }

    /// The code index number that classifies the message.
    pub open spec fn cin(self) -> CodeIndexNumber {
        match self {
            Message::NoteOff(_, _, _) => CodeIndexNumber::NoteOff,
            Message::NoteOn(_, _, _) => CodeIndexNumber::NoteOn,
            Message::PolyphonicAftertouch(_, _, _) => CodeIndexNumber::PolyKeyPress,
            Message::ProgramChange(_, _) => CodeIndexNumber::ProgramChange,
            Message::ChannelAftertouch(_, _) => CodeIndexNumber::ChannelPressure,
            Message::PitchWheelChange(_, _, _) => CodeIndexNumber::PitchBendChange,
            Message::ControlChange(_, _, _) => CodeIndexNumber::ControlChange,
            Message::MtcQuarterFrame(_) | Message::SongSelect(_) => {
                CodeIndexNumber::SystemCommon2Bytes
            },
            Message::SongPositionPointer(_, _) => CodeIndexNumber::SystemCommon3Bytes,
            Message::TuneRequest => CodeIndexNumber::SystemCommon1Byte,
            _ => CodeIndexNumber::SingleByte,
        }
    }

    /// The four bytes of the packet that carries the message over `cable`:
    /// the header, the bytes of the message, and zeros up to the end.
    pub open spec fn packet_bytes(self, cable: CableNumber) -> Seq<u8> {
        let bytes = self.bytes();
        seq![
            (cable@ * 16 + self.cin()@) as u8,
            bytes[0],
            if bytes.len() > 1 { bytes[1] } else { 0 },
            if bytes.len() > 2 { bytes[2] } else { 0 },
        ]
    }

    /// The channel voice message with the status byte `data[0]`: its high
    /// nibble says which message it is, and its low nibble on which channel.
    /// A high nibble that names no voice message is an invalid event type.
    pub open spec fn parse_voice(data: Seq<u8>) -> Result<Message, UsbMidiEventPacketError> {
        let event_type = ((data[0] / 16) * 16) as u8;
        let channel = Channel::from_wire(data[0] % 16).unwrap();
        if event_type == NOTE_ON_MASK {
            match note_pair(data) {
                Ok((note, v)) => Ok(Message::NoteOn(channel, note, v)),
                Err(e) => Err(e),
            }
        } else if event_type == NOTE_OFF_MASK {
            match note_pair(data) {
                Ok((note, v)) => Ok(Message::NoteOff(channel, note, v)),
                Err(e) => Err(e),
            }
        } else if event_type == POLYPHONIC_MASK {
            match note_pair(data) {
                Ok((note, v)) => Ok(Message::PolyphonicAftertouch(channel, note, v)),
                Err(e) => Err(e),
            }
        } else if event_type == PROGRAM_MASK {
            match data_at(data, 1) {
                Ok(v) => Ok(Message::ProgramChange(channel, v)),
                Err(e) => Err(e),
            }
        } else if event_type == CHANNEL_AFTERTOUCH_MASK {
            match data_at(data, 1) {
                Ok(v) => Ok(Message::ChannelAftertouch(channel, v)),
                Err(e) => Err(e),
            }
        } else if event_type == PITCH_BEND_MASK {
            match data_pair(data) {
                Ok((lsb, msb)) => Ok(Message::PitchWheelChange(channel, lsb, msb)),
                Err(e) => Err(e),
            }
        } else if event_type == CONTROL_CHANGE_MASK {
            match data_pair(data) {
                Ok((control, v)) => Ok(Message::ControlChange(channel, ControlFunction(control), v)),
                Err(e) => Err(e),
            }
        } else {
            Err(UsbMidiEventPacketError::InvalidEventType(event_type))
        }
    }

    /// The message that the bytes `data` hold: a status byte and the data
    /// bytes that it asks for. Bytes after those are ignored.
    ///
    /// A status byte that is the code of a system message is read as that
    /// message, any other as a channel voice message. So the status bytes
    /// 0xF0, 0xF4, 0xF5, 0xF7 and 0xFD are invalid event types, as those
    /// below 0x80 are.
    pub open spec fn parse(data: Seq<u8>) -> Result<Message, UsbMidiEventPacketError> {
        if data.len() == 0 {
            Err(UsbMidiEventPacketError::MissingDataPacket)
        } else if data[0] == MTC_QUARTER_FRAME {
            match data_at(data, 1) {
                Ok(v) => Ok(Message::MtcQuarterFrame(v)),
                Err(e) => Err(e),
            }
        } else if data[0] == SONG_POSITION_POINTER {
            match data_pair(data) {
                Ok((lsb, msb)) => Ok(Message::SongPositionPointer(lsb, msb)),
                Err(e) => Err(e),
            }
        } else if data[0] == SONG_SELECT {
            match data_at(data, 1) {
                Ok(v) => Ok(Message::SongSelect(v)),
                Err(e) => Err(e),
            }
        } else if data[0] == TUNE_REQUEST {
            Ok(Message::TuneRequest)
        } else if data[0] == TIMING_CLOCK {
            Ok(Message::TimingClock)
        } else if data[0] == TICK {
            Ok(Message::Tick)
        } else if data[0] == START {
            Ok(Message::Start)
        } else if data[0] == CONTINUE {
            Ok(Message::Continue)
        } else if data[0] == STOP {
            Ok(Message::Stop)
        } else if data[0] == ACTIVE_SENSING {
            Ok(Message::ActiveSensing)
        } else if data[0] == RESET {
            Ok(Message::Reset)
        } else {
            Message::parse_voice(data)
        }
    }
}

impl Message {
    /// Create a packet from the message.
    ///
    /// The packet gives the cable and the message back: reading is the
    /// inverse of writing.
    pub fn into_packet(self, cable: CableNumber) -> (r: UsbMidiEventPacket)
        ensures
            self.wf(),
            r@ == self.packet_bytes(cable),
            UsbMidiEventPacket::cable_of(r@) == cable,
            UsbMidiEventPacket::cin_of(r@) == self.cin(),
            Message::parse(r@.subrange(1, 4)) == Ok::<Message, UsbMidiEventPacketError>(self),
    {
        let cin = self.code_index_number();

        let mut raw = [0u8; 4];
        raw[0] = U4::combine(U4::from(cable), U4::from(cin));
        let r = Raw::from(self);
        raw[1] = r.status;

        match r.payload {
            Payload::Empty => {
                raw[2] = 0;
                raw[3] = 0;
            },
            Payload::SingleByte(byte) => {
                proof {
                    use_type_invariant(&byte);
                }
                raw[2] = u8::from(byte);
                raw[3] = 0;
            },
            Payload::DoubleByte(byte1, byte2) => {
                proof {
                    use_type_invariant(&byte1);
                    use_type_invariant(&byte2);
                }
                raw[2] = u8::from(byte1);
                raw[3] = u8::from(byte2);
            },
        };
        proof {
            assert(raw@ =~= self.packet_bytes(cable));
            assert(self.wf());
            self.lemma_round_trip(cable);
        }
        UsbMidiEventPacket { raw }
    }

    /// Returns the code index number for a message.
    pub fn code_index_number(&self) -> (r: CodeIndexNumber)
        ensures
            r == self.cin(),
    {
        match self {
            Self::NoteOn(_, _, _) => CodeIndexNumber::NoteOn,
            Self::NoteOff(_, _, _) => CodeIndexNumber::NoteOff,
            Self::ChannelAftertouch(_, _) => CodeIndexNumber::ChannelPressure,
            Self::PitchWheelChange(_, _, _) => CodeIndexNumber::PitchBendChange,
            Self::PolyphonicAftertouch(_, _, _) => CodeIndexNumber::PolyKeyPress,
            Self::ProgramChange(_, _) => CodeIndexNumber::ProgramChange,
            Self::ControlChange(_, _, _) => CodeIndexNumber::ControlChange,
            Self::MtcQuarterFrame(_) => CodeIndexNumber::SystemCommon2Bytes,
            Self::SongPositionPointer(_, _) => CodeIndexNumber::SystemCommon3Bytes,
            Self::SongSelect(_) => CodeIndexNumber::SystemCommon2Bytes,
            Self::TuneRequest => CodeIndexNumber::SystemCommon1Byte,
            Self::TimingClock => CodeIndexNumber::SingleByte,
            Self::Tick => CodeIndexNumber::SingleByte,
            Self::Start => CodeIndexNumber::SingleByte,
            Self::Continue => CodeIndexNumber::SingleByte,
            Self::Stop => CodeIndexNumber::SingleByte,
            Self::ActiveSensing => CodeIndexNumber::SingleByte,
            Self::Reset => CodeIndexNumber::SingleByte,
        }
    }
}

impl TryFrom<&UsbMidiEventPacket> for Message {
    type Error = UsbMidiEventPacketError;

    /// Parses the message that the packet carries in the three bytes after
    /// its header.
    fn try_from(value: &UsbMidiEventPacket) -> (r: Result<Self, Self::Error>)
        ensures
            r == Message::parse(value@.subrange(1, 4)),
    {
        let raw = value.as_raw_bytes();
        Self::try_from(slice_subrange(raw, 1, 4))
    }
}

impl vstd::std_specs::convert::TryFromSpecImpl<&UsbMidiEventPacket> for Message {
    open spec fn obeys_try_from_spec() -> bool {
        true
    }

    open spec fn try_from_spec(value: &UsbMidiEventPacket) -> Result<Self, Self::Error> {
        Message::parse(value@.subrange(1, 4))
    }
}

impl Message {
    /// The message has between one and three bytes, as many as its code
    /// index number says, and classifying them gives that same code: the code
    /// derived from the message and the code inferred from its bytes agree.
    /// The code of a channel voice message is the high nibble of its status
    /// byte.
    pub proof fn lemma_cin_agrees(self)
        ensures
            1 <= self.bytes().len() <= 3,
            self.bytes().len() == self.cin().size(),
            self.bytes()[0] == self.status(),
            self.status() >= 0x80,
            self.status() < 0xF0 ==> self.cin()@ == self.status() / 16,
            CodeIndexNumber::of_payload(self.bytes()) == Ok::<
                CodeIndexNumber,
                UsbMidiEventPacketError,
            >(self.cin()),
    {
        let channel = match self {
            Message::NoteOff(c, _, _)
            | Message::NoteOn(c, _, _)
            | Message::PolyphonicAftertouch(c, _, _)
            | Message::ProgramChange(c, _)
            | Message::ChannelAftertouch(c, _)
            | Message::PitchWheelChange(c, _, _)
            | Message::ControlChange(c, _, _) => c,
            _ => Channel::Channel1,
        };
        channel.lemma_wire(0);
    }

    /// Round trip: a message with 7-bit data values, sent over any cable,
    /// is read back from its packet unchanged, together with the cable and
    /// its code index number. The message is also read back from its own
    /// bytes.
    pub proof fn lemma_round_trip(self, cable: CableNumber)
        requires
            self.wf(),
        ensures
            self.packet_bytes(cable).len() == 4,
            UsbMidiEventPacket::cable_of(self.packet_bytes(cable)) == cable,
            UsbMidiEventPacket::cin_of(self.packet_bytes(cable)) == self.cin(),
            UsbMidiEventPacket::payload_of(self.packet_bytes(cable)) == self.bytes(),
            Message::parse(self.packet_bytes(cable).subrange(1, 4)) == Ok::<
                Message,
                UsbMidiEventPacketError,
            >(self),
            Message::parse(self.bytes()) == Ok::<Message, UsbMidiEventPacketError>(self),
    {
        self.lemma_cin_agrees();
        cable.lemma_wire(0);
        self.cin().lemma_wire(0);
        let packet = self.packet_bytes(cable);
        assert(UsbMidiEventPacket::payload_of(packet) =~= self.bytes());
        let data = packet.subrange(1, 4);
        assert(data[0] == self.status());
        match self {
            Message::NoteOff(c, n, _)
            | Message::NoteOn(c, n, _)
            | Message::PolyphonicAftertouch(c, n, _) => {
                c.lemma_wire(0);
                n.lemma_wire(0);
            },
            Message::ProgramChange(c, _)
            | Message::ChannelAftertouch(c, _)
            | Message::PitchWheelChange(c, _, _)
            | Message::ControlChange(c, _, _) => {
                c.lemma_wire(0);
            },
            _ => {},
        }
    }

    /// What is read is well formed, and written again it gives the bytes
    /// that it was read from, but for the clamping: the status byte and as
    /// many data bytes as the message has, each capped at 0x7F. Bytes that
    /// parse are classified by the code index number of their message.
    pub proof fn lemma_parse_bytes(data: Seq<u8>)
        requires
            Message::parse(data) is Ok,
        ensures
            ({
                let message = Message::parse(data)->Ok_0;
                let bytes = message.bytes();
                &&& message.wf()
                &&& bytes.len() <= data.len()
                &&& bytes[0] == data[0]
                &&& forall|i: int|
                    1 <= i < bytes.len() ==> #[trigger] bytes[i] == if data[i] > U7::MAX {
                        U7::MAX
                    } else {
                        data[i]
                    }
                &&& CodeIndexNumber::of_payload(data) == Ok::<
                    CodeIndexNumber,
                    UsbMidiEventPacketError,
                >(message.cin())
            }),
    {
        let message = Message::parse(data)->Ok_0;
        let low = data[0] % 16;
        let channel = Channel::from_wire(low).unwrap();
        channel.lemma_wire(low);
        if data.len() > 1 && Note::from_wire(data[1]) is Some {
            Note::from_wire(data[1]).unwrap().lemma_wire(data[1]);
        }
    }

    /// Encoding a message directly and encoding its bytes as an event
    /// payload give the same packet.
    pub proof fn lemma_two_encodings(self, cable: CableNumber)
        ensures
            UsbMidiEventPacket::encoded(cable, self.bytes()) == Ok::<
                Seq<u8>,
                UsbMidiEventPacketError,
            >(self.packet_bytes(cable)),
    {
        self.lemma_cin_agrees();
        assert(UsbMidiEventPacket::framed(cable, self.cin(), self.bytes())
            =~= self.packet_bytes(cable));
    }
}

/// The status byte of a channel voice message.
fn voice_status(mask: u8, channel: Channel) -> (r: u8)
    requires
        mask % 16 == 0,
    ensures
        r == mask + channel@,
{
    let low: u8 = u8::from(channel);
    assert(mask % 16 == 0 && low <= 15 ==> (mask | low) == mask + low) by (bit_vector);
    mask | low
}

impl From<Message> for Raw {
    /// The status byte and the payload shape of the message.
    fn from(value: Message) -> (r: Raw)
        ensures
            r == value.raw(),
    {
        match value {
            Message::NoteOn(chan, note, vel) => {
                let payload = Payload::DoubleByte(U7::from(note), vel);
                let status = voice_status(NOTE_ON_MASK, chan);
                Raw { status, payload }
            },
            Message::NoteOff(chan, note, vel) => {
                let payload = Payload::DoubleByte(U7::from(note), vel);
                let status = voice_status(NOTE_OFF_MASK, chan);
                Raw { status, payload }
            },
            Message::PolyphonicAftertouch(chan, note, pressure) => {
                let payload = Payload::DoubleByte(U7::from(note), pressure);
                let status = voice_status(POLYPHONIC_MASK, chan);
                Raw { status, payload }
            },
            Message::ProgramChange(chan, program) => {
                let payload = Payload::SingleByte(program);
                let status = voice_status(PROGRAM_MASK, chan);
                Raw { status, payload }
            },
            Message::ChannelAftertouch(chan, pressure) => {
                let payload = Payload::SingleByte(pressure);
                let status = voice_status(CHANNEL_AFTERTOUCH_MASK, chan);
                Raw { status, payload }
            },
            Message::PitchWheelChange(chan, lsb, msb) => {
                let payload = Payload::DoubleByte(lsb, msb);
                let status = voice_status(PITCH_BEND_MASK, chan);
                Raw { status, payload }
            },
            Message::ControlChange(chan, control_function, value) => {
                let payload = Payload::DoubleByte(control_function.0, value);
                let status = voice_status(CONTROL_CHANGE_MASK, chan);
                Raw { status, payload }
            },
            Message::MtcQuarterFrame(frame) => {
                let payload = Payload::SingleByte(frame);
                let status = MTC_QUARTER_FRAME;
                Raw { status, payload }
            },
            Message::SongPositionPointer(lsb, msb) => {
                let payload = Payload::DoubleByte(lsb, msb);
                let status = SONG_POSITION_POINTER;
                Raw { status, payload }
            },
            Message::SongSelect(song) => {
                let payload = Payload::SingleByte(song);
                let status = SONG_SELECT;
                Raw { status, payload }
            },
            Message::TuneRequest => {
                let payload = Payload::Empty;
                let status = TUNE_REQUEST;
                Raw { status, payload }
            },
            Message::TimingClock => {
                let payload = Payload::Empty;
                let status = TIMING_CLOCK;
                Raw { status, payload }
            },
            Message::Tick => {
                let payload = Payload::Empty;
                let status = TICK;
                Raw { status, payload }
            },
            Message::Start => {
                let payload = Payload::Empty;
                let status = START;
                Raw { status, payload }
            },
            Message::Continue => {
                let payload = Payload::Empty;
                let status = CONTINUE;
                Raw { status, payload }
            },
            Message::Stop => {
                let payload = Payload::Empty;
                let status = STOP;
                Raw { status, payload }
            },
            Message::ActiveSensing => {
                let payload = Payload::Empty;
                let status = ACTIVE_SENSING;
                Raw { status, payload }
            },
            Message::Reset => {
                let payload = Payload::Empty;
                let status = RESET;
                Raw { status, payload }
            },
        }
    }
}

impl vstd::std_specs::convert::FromSpecImpl<Message> for Raw {
    open spec fn obeys_from_spec() -> bool {
        true
    }

    open spec fn from_spec(value: Message) -> Raw {
        value.raw()
    }
}

impl TryFrom<&[u8]> for Message {
    type Error = UsbMidiEventPacketError;

    /// Parses the message that starts with the status byte `data[0]`.
    ///
    /// Data bytes are read leniently: one above 0x7F counts as 0x7F. A note
    /// is read strictly.
    fn try_from(data: &[u8]) -> (r: Result<Self, Self::Error>)
        ensures
            r == Message::parse(data@),
            r matches Ok(message) ==> message.wf(),
    {
        proof {
            if Message::parse(data@) is Ok {
                Message::lemma_parse_bytes(data@);
            }
        }
        if data.len() == 0 {
            return Err(UsbMidiEventPacketError::MissingDataPacket);
        }
        let status_byte: u8 = data[0];

        match status_byte {
            MTC_QUARTER_FRAME => {
                return Ok(Message::MtcQuarterFrame(get_u7_at(data, 1)?));
            },
            SONG_POSITION_POINTER => {
                return Ok(Message::SongPositionPointer(get_u7_at(data, 1)?, get_u7_at(data, 2)?));
            },
            SONG_SELECT => {
                return Ok(Message::SongSelect(get_u7_at(data, 1)?));
            },
            TUNE_REQUEST => {
                return Ok(Message::TuneRequest);
            },
            TIMING_CLOCK => {
                return Ok(Message::TimingClock);
            },
            TICK => {
                return Ok(Message::Tick);
            },
            START => {
                return Ok(Message::Start);
            },
            CONTINUE => {
                return Ok(Message::Continue);
            },
            STOP => {
                return Ok(Message::Stop);
            },
            ACTIVE_SENSING => {
                return Ok(Message::ActiveSensing);
            },
            RESET => {
                return Ok(Message::Reset);
            },
            _ => {},
        }

        let event_type: u8 = status_byte & 0b1111_0000;
        let channel_bytes: u8 = status_byte & 0b0000_1111;
        assert(status_byte & 0b1111_0000 == (status_byte / 16) * 16 && status_byte & 0b0000_1111
            == status_byte % 16) by (bit_vector);

        let channel = Channel::try_from(channel_bytes).ok().unwrap();
        proof {
            channel.lemma_wire(channel_bytes);
        }

        match event_type {
            NOTE_ON_MASK => Ok(Message::NoteOn(channel, get_note(data)?, get_u7_at(data, 2)?)),
            NOTE_OFF_MASK => Ok(Message::NoteOff(channel, get_note(data)?, get_u7_at(data, 2)?)),
            POLYPHONIC_MASK => Ok(
                Message::PolyphonicAftertouch(channel, get_note(data)?, get_u7_at(data, 2)?),
            ),
            PROGRAM_MASK => Ok(Message::ProgramChange(channel, get_u7_at(data, 1)?)),
            CHANNEL_AFTERTOUCH_MASK => Ok(Message::ChannelAftertouch(channel, get_u7_at(data, 1)?)),
            PITCH_BEND_MASK => Ok(
                Message::PitchWheelChange(channel, get_u7_at(data, 1)?, get_u7_at(data, 2)?),
            ),
            CONTROL_CHANGE_MASK => Ok(
                Message::ControlChange(
                    channel,
                    ControlFunction(get_u7_at(data, 1)?),
                    get_u7_at(data, 2)?,
                ),
            ),
            _ => Err(UsbMidiEventPacketError::InvalidEventType(event_type)),
        }
    }
}

impl vstd::std_specs::convert::TryFromSpecImpl<&[u8]> for Message {
    open spec fn obeys_try_from_spec() -> bool {
        true
    }

    open spec fn try_from_spec(data: &[u8]) -> Result<Self, Self::Error> {
        Message::parse(data@)
    }
}

/// The note in the byte after the status byte.
fn get_note(data: &[u8]) -> (r: Result<Note, UsbMidiEventPacketError>)
    ensures
        r == note_at(data@),
{
    let note_byte = get_byte_at_position(data, 1)?;
    match Note::try_from(note_byte) {
        Ok(note) => Ok(note),
        Err(_) => Err(UsbMidiEventPacketError::InvalidNote(note_byte)),
    }
}

/// The data byte at `index`, clamped to the 7-bit range.
fn get_u7_at(data: &[u8], index: usize) -> (r: Result<U7, UsbMidiEventPacketError>)
    ensures
        r == data_at(data@, index as int),
{
    let data_byte = get_byte_at_position(data, index)?;
    Ok(U7::from_clamped(data_byte))
}

/// The byte at `index`, if the data reaches that far.
fn get_byte_at_position(data: &[u8], index: usize) -> (r: Result<u8, UsbMidiEventPacketError>)
    ensures
        index < data@.len() ==> r == Ok::<u8, UsbMidiEventPacketError>(data@[index as int]),
        index >= data@.len() ==> r == Err::<u8, UsbMidiEventPacketError>(
            UsbMidiEventPacketError::MissingDataPacket,
        ),
{
    if index < data.len() {
        Ok(data[index])
    } else {
        Err(UsbMidiEventPacketError::MissingDataPacket)
    }
}

} // verus!
