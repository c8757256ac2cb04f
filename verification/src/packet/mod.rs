//! USB MIDI event packet parser and related types.

pub mod cable_number;
pub mod code_index_number;
pub mod reader;
pub mod sysex;

use crate::message::data::u4::U4;
use crate::message::Message;
use crate::packet::cable_number::CableNumber;
use crate::packet::code_index_number::CodeIndexNumber;
use vstd::prelude::*;
use vstd::slice::slice_subrange;

verus! {

/// A packet that communicates with the host.
///
/// It holds the four bytes that go over the wire: the header with the cable
/// number in its high nibble and the code index number in its low nibble,
/// followed by up to three payload bytes.
#[derive(Debug, Clone, Copy, PartialEq, Eq, Hash)]
pub struct UsbMidiEventPacket {
    /// Raw packet data.
    pub(crate) raw: [u8; 4],
}

/// Error variants for parsing the packet.
#[derive(Debug, Clone, Copy, PartialEq, Eq, Structural)]
pub enum UsbMidiEventPacketError {
    /// Invalid packet.
    InvalidPacket,
    /// Invalid note.
    InvalidNote(u8),
    /// Invalid cable number.
    InvalidCableNumber(u8),
    /// Invalid code index number.
    InvalidCodeIndexNumber(u8),
    /// Invalid event type.
    InvalidEventType(u8),
    /// Missing data packet.
    MissingDataPacket,
    /// Empty payload.
    EmptyPayload,
    /// Invalid payload status.
    InvalidPayloadStatus,
    /// Invalid payload size.
    InvalidPayloadSize,
}

/// The error of the packet readers: reading a packet from a buffer fails as
/// parsing a packet does.
pub type MidiPacketParsingError = UsbMidiEventPacketError;

impl View for UsbMidiEventPacket {
    type V = Seq<u8>;

    /// The four bytes of the packet.
    open(crate) spec fn view(&self) -> Seq<u8> {
        self.raw@
    }
}

impl TryFrom<&[u8]> for UsbMidiEventPacket {
    type Error = UsbMidiEventPacketError;

    /// The packet that holds the bytes of `value`, which must be four.
    fn try_from(value: &[u8]) -> (r: Result<Self, Self::Error>)
        ensures
            value@.len() == 4 ==> r is Ok && r->Ok_0@ == value@,
            value@.len() != 4 ==> r == Err::<UsbMidiEventPacket, UsbMidiEventPacketError>(
                UsbMidiEventPacketError::InvalidPacket,
            ),
    {
        if value.len() != 4 {
            return Err(UsbMidiEventPacketError::InvalidPacket);
        }
        let raw: [u8; 4] = [value[0], value[1], value[2], value[3]];
        assert(raw@ =~= value@);
        assert(raw =~= UsbMidiEventPacket::of_bytes(value@).raw);
        Ok(Self { raw })
    }
}

impl vstd::std_specs::convert::TryFromSpecImpl<&[u8]> for UsbMidiEventPacket {
    open spec fn obeys_try_from_spec() -> bool {
        true
    }

    open spec fn try_from_spec(value: &[u8]) -> Result<Self, Self::Error> {
        if value@.len() == 4 {
            Ok(UsbMidiEventPacket::of_bytes(value@))
        } else {
            Err(UsbMidiEventPacketError::InvalidPacket)
        }
    }
}

impl UsbMidiEventPacket {
    /// The packet that holds the first four bytes of `bytes`.
    pub open(crate) spec fn of_bytes(bytes: Seq<u8>) -> UsbMidiEventPacket {
        UsbMidiEventPacket { raw: [bytes[0], bytes[1], bytes[2], bytes[3]] }
    }

    /// The cable number that the header of a packet holds in its high nibble.
    pub open spec fn cable_of(bytes: Seq<u8>) -> CableNumber {
        CableNumber::from_wire(bytes[0] / 16).unwrap()
    }

    /// The code index number that the header of a packet holds in its low
    /// nibble.
    pub open spec fn cin_of(bytes: Seq<u8>) -> CodeIndexNumber {
        CodeIndexNumber::from_wire(bytes[0] % 16).unwrap()
    }

    /// The bytes of a packet that its code index number marks as payload.
    pub open spec fn payload_of(bytes: Seq<u8>) -> Seq<u8> {
        bytes.subrange(1, 1 + UsbMidiEventPacket::cin_of(bytes).size() as int)
    }

    /// The four bytes of the packet that carries the payload under the given
    /// header nibbles: as many bytes of `payload` as the code index number
    /// asks for, and zeros after them.
    pub open spec fn framed(cable: CableNumber, cin: CodeIndexNumber, payload: Seq<u8>) -> Seq<u8> {
        seq![
            (cable@ * 16 + cin@) as u8,
            payload[0],
            if cin.size() > 1 { payload[1] } else { 0 },
            if cin.size() > 2 { payload[2] } else { 0 },
        ]
    }

    /// The four bytes of the packet for an event payload on `cable`, or the
    /// reason why there is none: the payload cannot be classified, or it is
    /// shorter than its classification asks for.
    pub open spec fn encoded(cable: CableNumber, payload: Seq<u8>) -> Result<
        Seq<u8>,
        UsbMidiEventPacketError,
    > {
        match CodeIndexNumber::of_payload(payload) {
            Err(e) => Err(e),
            Ok(cin) => if payload.len() < cin.size() {
                Err(UsbMidiEventPacketError::InvalidPayloadSize)
            } else {
                Ok(UsbMidiEventPacket::framed(cable, cin, payload))
            },
        }
    }

    /// Whether a packet with these bytes carries a part of a SysEx message:
    /// its code says so, or it is a single byte that closes the message or
    /// is a data byte.
    pub open spec fn sysex(bytes: Seq<u8>) -> bool {
        match UsbMidiEventPacket::cin_of(bytes) {
            CodeIndexNumber::SysexStartsOrContinues
            | CodeIndexNumber::SysexEnds2Bytes
            | CodeIndexNumber::SysexEnds3Bytes => true,
            CodeIndexNumber::SystemCommon1Byte => bytes[1] == 0xF7,
            CodeIndexNumber::SingleByte => bytes[1] < 0x80,
            _ => false,
        }
    }

    /// Whether a packet with these bytes carries the start of a SysEx message.
    pub open spec fn sysex_start(bytes: Seq<u8>) -> bool {
        UsbMidiEventPacket::sysex(bytes) && bytes[1] == 0xF0
    }

    /// Whether a packet with these bytes carries the end of a SysEx message.
    pub open spec fn sysex_end(bytes: Seq<u8>) -> bool {
        UsbMidiEventPacket::sysex(bytes) && (bytes[1] == 0xF7 || bytes[2] == 0xF7 || bytes[3]
            == 0xF7)
    }

    /// Returns the cable number.
    ///
    /// The high nibble of the header always names one of the sixteen cables.
    pub fn cable_number(&self) -> (r: CableNumber)
        ensures
            r@ == self@[0] / 16,
            r == UsbMidiEventPacket::cable_of(self@),
    {
        let header: u8 = self.raw[0];
        let raw_cable_number: u8 = header >> 4;
        assert(header >> 4 == header / 16) by (bit_vector);
        let r = CableNumber::try_from(raw_cable_number).ok().unwrap();
        proof {
            r.lemma_wire(raw_cable_number);
        }
        r
    }

    /// Returns the code index number.
    ///
    /// The low nibble of the header always names one of the sixteen codes.
    pub fn code_index_number(&self) -> (r: CodeIndexNumber)
        ensures
            r@ == self@[0] % 16,
            r == UsbMidiEventPacket::cin_of(self@),
    {
        let header: u8 = self.raw[0];
        let raw_cin: u8 = header & 0x0F;
        assert(header & 0x0F == header % 16) by (bit_vector);
        let r = CodeIndexNumber::try_from(raw_cin).ok().unwrap();
        proof {
            r.lemma_wire(raw_cin);
        }
        r
    }

    /// Returns the header byte.
    pub fn header(&self) -> (r: u8)
        ensures
            r == self@[0],
    {
        self.raw[0]
    }

    /// Returns the message that the packet carries.
    ///
    /// The bytes after the header must hold a message; `Message::try_from`
    /// tells whether they do.
    pub fn message(&self) -> (r: Message)
        requires
            Message::parse(self@.subrange(1, 4)) is Ok,
        ensures
            Message::parse(self@.subrange(1, 4)) == Ok::<Message, UsbMidiEventPacketError>(r),
            r.wf(),
    {
        Message::try_from(self).unwrap()
    }

    /// Returns a slice to the event payload bytes. The length is dependent on the payload type.
    pub fn payload_bytes(&self) -> (r: &[u8])
        ensures
            r@ == UsbMidiEventPacket::payload_of(self@),
            r@.len() == UsbMidiEventPacket::cin_of(self@).size(),
    {
        let size = self.code_index_number().payload_size();
        slice_subrange(self.raw.as_slice(), 1, 1 + size)
    }

    /// Returns a reference to the raw bytes.
    pub fn as_raw_bytes(&self) -> (r: &[u8])
        ensures
            r@ == self@,
    {
        self.raw.as_slice()
    }

    /// Returns the raw bytes as owned array.
    pub fn to_raw_bytes(&self) -> (r: [u8; 4])
        ensures
            r@ == self@,
    {
        self.raw
    }

    /// Creates a packet from a slice of event payload bytes.
    ///
    /// Bytes after those that the classification asks for are ignored.
    pub fn try_from_payload_bytes(cable: CableNumber, bytes: &[u8]) -> (r: Result<
        Self,
        UsbMidiEventPacketError,
    >)
        ensures
            match UsbMidiEventPacket::encoded(cable, bytes@) {
                Ok(packet) => r is Ok && r->Ok_0@ == packet,
                Err(e) => r == Err::<UsbMidiEventPacket, UsbMidiEventPacketError>(e),
            },
            r matches Ok(packet) ==> {
                &&& UsbMidiEventPacket::cable_of(packet@) == cable
                &&& CodeIndexNumber::of_payload(bytes@) == Ok::<
                    CodeIndexNumber,
                    UsbMidiEventPacketError,
                >(UsbMidiEventPacket::cin_of(packet@))
                &&& UsbMidiEventPacket::payload_of(packet@) == bytes@.subrange(
                    0,
                    UsbMidiEventPacket::cin_of(packet@).size() as int,
                )
            },
    {
        let cin = CodeIndexNumber::try_from_payload(bytes)?;
        let payload_size = cin.payload_size();

        if bytes.len() < payload_size {
            return Err(UsbMidiEventPacketError::InvalidPayloadSize);
        }
        let mut raw = [0u8; 4];
        raw[0] = U4::combine(U4::from(cable), U4::from(cin));
        raw[1] = bytes[0];
        if payload_size > 1 {
            raw[2] = bytes[1];
        }
        if payload_size > 2 {
            raw[3] = bytes[2];
        }
        proof {
            assert(raw@ =~= UsbMidiEventPacket::framed(cable, cin, bytes@));
            UsbMidiEventPacket::lemma_encoded(cable, bytes@);
        }
        Ok(Self { raw })
    }

    /// Creates a packet from a message and returns it.
    pub fn from_message(cable: CableNumber, message: Message) -> (r: Self)
        ensures
            r@ == message.packet_bytes(cable),
            UsbMidiEventPacket::cable_of(r@) == cable,
            Message::parse(r@.subrange(1, 4)) == Ok::<Message, UsbMidiEventPacketError>(message),
    {
        message.into_packet(cable)
    }

    /// Creates a packet from a slice of message bytes.
    pub fn from_message_bytes(cable: CableNumber, bytes: &[u8]) -> (r: Result<
        Self,
        UsbMidiEventPacketError,
    >)
        ensures
            match Message::parse(bytes@) {
                Ok(message) => r is Ok && r->Ok_0@ == message.packet_bytes(cable),
                Err(e) => r == Err::<UsbMidiEventPacket, UsbMidiEventPacketError>(e),
            },
    {
        let message = Message::try_from(bytes)?;

        Ok(Self::from_message(cable, message))
    }

    /// Returns if the packet payload is part of a SysEx message.
    pub fn is_sysex(&self) -> (r: bool)
        ensures
            r == UsbMidiEventPacket::sysex(self@),
    {
        match self.code_index_number() {
            CodeIndexNumber::SysexStartsOrContinues
            | CodeIndexNumber::SysexEnds2Bytes
            | CodeIndexNumber::SysexEnds3Bytes => true,
            CodeIndexNumber::SystemCommon1Byte => self.raw[1] == 0xF7,
            CodeIndexNumber::SingleByte => self.raw[1] < 0x80,
            _ => false,
        }
    }

    /// Returns if the packet payload contains the start of a SysEx message.
    pub fn is_sysex_start(&self) -> (r: bool)
        ensures
            r == UsbMidiEventPacket::sysex_start(self@),
            r == (UsbMidiEventPacket::sysex(self@) && self@[1] == 0xF0),
    {
        self.is_sysex() && self.raw[1] == 0xF0
    }

    /// Returns if the packet payload contains the end of a SysEx message.
    pub fn is_sysex_end(&self) -> (r: bool)
        ensures
            r == UsbMidiEventPacket::sysex_end(self@),
    {
        self.is_sysex() && (self.raw[1] == 0xF7 || self.raw[2] == 0xF7 || self.raw[3] == 0xF7)
    }

    /// A packet made from an event payload gives back the cable, the code
    /// index number of the payload and the payload bytes that the code asks
    /// for; bytes of the payload beyond these have no influence.
    pub proof fn lemma_encoded(cable: CableNumber, payload: Seq<u8>)
        requires
            UsbMidiEventPacket::encoded(cable, payload) is Ok,
        ensures
            ({
                let packet = UsbMidiEventPacket::encoded(cable, payload)->Ok_0;
                let cin = CodeIndexNumber::of_payload(payload)->Ok_0;
                &&& CodeIndexNumber::of_payload(payload) is Ok
                &&& packet.len() == 4
                &&& UsbMidiEventPacket::cable_of(packet) == cable
                &&& UsbMidiEventPacket::cin_of(packet) == cin
                &&& UsbMidiEventPacket::payload_of(packet) == payload.subrange(
                    0,
                    cin.size() as int,
                )
                &&& UsbMidiEventPacket::encoded(cable, payload.subrange(0, cin.size() as int))
                    == Ok::<Seq<u8>, UsbMidiEventPacketError>(packet)
            }),
    {
        let packet = UsbMidiEventPacket::encoded(cable, payload)->Ok_0;
        let cin = CodeIndexNumber::of_payload(payload)->Ok_0;
        let cut = payload.subrange(0, cin.size() as int);
        cable.lemma_wire(0);
        cin.lemma_wire(0);
        assert(UsbMidiEventPacket::payload_of(packet) =~= cut);
        assert(CodeIndexNumber::of_payload(cut) == Ok::<CodeIndexNumber, UsbMidiEventPacketError>(
            cin,
        ));
        assert(UsbMidiEventPacket::framed(cable, cin, cut) =~= packet);
    }

    /// What the SysEx predicates say of a packet made from an event payload
    /// is told by the payload: the packet is part of a SysEx message when the
    /// payload begins with the start byte, the terminator or a data byte; it
    /// starts one when the payload begins with the start byte; and it ends
    /// one when it is part of one and its payload ends with the terminator.
    pub proof fn lemma_encoded_sysex(cable: CableNumber, payload: Seq<u8>)
        requires
            UsbMidiEventPacket::encoded(cable, payload) is Ok,
        ensures
            ({
                let packet = UsbMidiEventPacket::encoded(cable, payload)->Ok_0;
                let carried = UsbMidiEventPacket::payload_of(packet);
                &&& UsbMidiEventPacket::sysex(packet) <==> payload[0] == 0xF0 || payload[0] == 0xF7
                    || payload[0] < 0x80
                &&& UsbMidiEventPacket::sysex_start(packet) <==> payload[0] == 0xF0
                &&& UsbMidiEventPacket::sysex_end(packet) <==> UsbMidiEventPacket::sysex(packet)
                    && carried[carried.len() - 1] == 0xF7
            }),
    {
        UsbMidiEventPacket::lemma_encoded(cable, payload);
    }

    /// A packet that starts or ends a SysEx message is part of one, and a
    /// packet starts a message exactly when its first payload byte is the
    /// start byte 0xF0 and its code index number is one of the three for
    /// SysEx.
    pub proof fn lemma_sysex(bytes: Seq<u8>)
        ensures
            UsbMidiEventPacket::sysex_start(bytes) ==> UsbMidiEventPacket::sysex(bytes),
            UsbMidiEventPacket::sysex_end(bytes) ==> UsbMidiEventPacket::sysex(bytes),
            UsbMidiEventPacket::sysex_start(bytes) <==> bytes[1] == 0xF0 && (
            UsbMidiEventPacket::cin_of(bytes) == CodeIndexNumber::SysexStartsOrContinues
                || UsbMidiEventPacket::cin_of(bytes) == CodeIndexNumber::SysexEnds2Bytes
                || UsbMidiEventPacket::cin_of(bytes) == CodeIndexNumber::SysexEnds3Bytes),
    {
    }

    /// Every packet has four bytes, and is told by them.
    pub proof fn lemma_view(self, other: UsbMidiEventPacket)
        ensures
            self@.len() == 4,
            UsbMidiEventPacket::of_bytes(self@) == self,
            self@ == other@ <==> self == other,
    {
        assert(UsbMidiEventPacket::of_bytes(self@).raw =~= self.raw);
        if self@ == other@ {
            assert(self.raw =~= other.raw);
        }
    }

    /// A packet made of four bytes holds them.
    pub proof fn lemma_of_bytes(bytes: Seq<u8>)
        requires
            bytes.len() == 4,
        ensures
            UsbMidiEventPacket::of_bytes(bytes)@ == bytes,
    {
        assert(UsbMidiEventPacket::of_bytes(bytes)@ =~= bytes);
    }
}

impl From<UsbMidiEventPacket> for [u8; 4] {
    /// The four bytes of the packet.
    fn from(value: UsbMidiEventPacket) -> (r: [u8; 4])
        ensures
            r@ == value@,
    {
        value.raw
    }
}

impl vstd::std_specs::convert::FromSpecImpl<UsbMidiEventPacket> for [u8; 4] {
    open spec fn obeys_from_spec() -> bool {
        true
    }

    open(crate) spec fn from_spec(value: UsbMidiEventPacket) -> [u8; 4] {
        value.raw
    }
}

} // verus!
