use usbd_midi::message::channel::Channel;
use usbd_midi::message::channel::Channel::{Channel1, Channel2};
use usbd_midi::message::control_function::ControlFunction;
use usbd_midi::message::data::u7::U7;
use usbd_midi::message::notes::Note;
use usbd_midi::message::raw::{Payload, Raw};
use usbd_midi::message::{Message, Velocity};
use usbd_midi::packet::cable_number::CableNumber;
use usbd_midi::packet::cable_number::CableNumber::{Cable0, Cable1};
use usbd_midi::packet::code_index_number::CodeIndexNumber;
use usbd_midi::packet::{UsbMidiEventPacket, UsbMidiEventPacketError};

fn v7(value: u8) -> U7 {
    U7::try_from(value).unwrap()
}

fn control(value: u8) -> ControlFunction {
    ControlFunction(v7(value))
}

fn packet_of(raw: [u8; 4]) -> UsbMidiEventPacket {
    UsbMidiEventPacket::try_from(raw.as_slice()).unwrap()
}

fn parse(data: &[u8]) -> Result<Message, UsbMidiEventPacketError> {
    Message::try_from(data)
}

fn samples() -> Vec<Message> {
    let mut all = vec![
        Message::TuneRequest,
        Message::TimingClock,
        Message::Tick,
        Message::Start,
        Message::Continue,
        Message::Stop,
        Message::ActiveSensing,
        Message::Reset,
    ];
    for value in [0u8, 1, 64, 127] {
        all.push(Message::MtcQuarterFrame(v7(value)));
        all.push(Message::SongSelect(v7(value)));
        all.push(Message::SongPositionPointer(v7(value), v7(127 - value)));
    }
    for channel in 0u8..16 {
        let channel = Channel::try_from(channel).unwrap();
        for note in [0u8, 36, 60, 127] {
            let note = Note::try_from(note).unwrap();
            for value in [0u8, 100, 127] {
                all.push(Message::NoteOn(channel, note, v7(value)));
                all.push(Message::NoteOff(channel, note, v7(value)));
                all.push(Message::PolyphonicAftertouch(channel, note, v7(value)));
            }
        }
        for value in [0u8, 1, 64, 127] {
            all.push(Message::ProgramChange(channel, v7(value)));
            all.push(Message::ChannelAftertouch(channel, v7(value)));
            all.push(Message::PitchWheelChange(channel, v7(value), v7(127 - value)));
            all.push(Message::ControlChange(channel, control(value), v7(127 - value)));
        }
    }
    all
}

#[test]
fn message_note_on() {
    let message = Message::NoteOn(Channel1, Note::C2, v7(127));
    assert_eq!(packet_of([9, 144, 36, 127]), message.into_packet(Cable0));
}

#[test]
fn message_note_off() {
    let message = Message::NoteOff(Channel1, Note::C2, v7(0));
    assert_eq!(packet_of([8, 128, 36, 0]), message.into_packet(Cable0));
}

#[test]
fn message_polyphonic_aftertouch() {
    let message = Message::PolyphonicAftertouch(Channel1, Note::C2, v7(64));
    assert_eq!(packet_of([10, 160, 36, 64]), message.into_packet(Cable0));
}

#[test]
fn message_program_change() {
    let message = Message::ProgramChange(Channel1, v7(127));
    assert_eq!(packet_of([28, 192, 127, 0]), message.into_packet(Cable1));
}

#[test]
fn message_channel_aftertouch() {
    let message = Message::ChannelAftertouch(Channel1, v7(127));
    assert_eq!(packet_of([13, 208, 127, 0]), message.into_packet(Cable0));
}

#[test]
fn message_pitch_wheel() {
    let message = Message::PitchWheelChange(Channel1, v7(64), v7(32));
    assert_eq!(packet_of([14, 224, 64, 32]), message.into_packet(Cable0));
}

#[test]
fn message_control_change() {
    let message =
        Message::ControlChange(Channel2, control(ControlFunction::MOD_WHEEL_1), v7(32));
    assert_eq!(packet_of([11, 177, 1, 32]), message.into_packet(Cable0));
}

#[test]
fn message_system_common() {
    assert_eq!(
        packet_of([0x02, 0xF1, 12, 0]),
        Message::MtcQuarterFrame(v7(12)).into_packet(Cable0)
    );
    assert_eq!(
        packet_of([0x03, 0xF2, 38, 75]),
        Message::SongPositionPointer(v7(38), v7(75)).into_packet(Cable0)
    );
    assert_eq!(packet_of([0x02, 0xF3, 4, 0]), Message::SongSelect(v7(4)).into_packet(Cable0));
    assert_eq!(packet_of([0x05, 0xF6, 0, 0]), Message::TuneRequest.into_packet(Cable0));
}

#[test]
fn message_realtime() {
    assert_eq!(packet_of([0x0F, 0xF8, 0, 0]), Message::TimingClock.into_packet(Cable0));
    assert_eq!(packet_of([0x0F, 0xF9, 0, 0]), Message::Tick.into_packet(Cable0));
    assert_eq!(packet_of([0x0F, 0xFA, 0, 0]), Message::Start.into_packet(Cable0));
    assert_eq!(packet_of([0x0F, 0xFB, 0, 0]), Message::Continue.into_packet(Cable0));
    assert_eq!(packet_of([0x0F, 0xFC, 0, 0]), Message::Stop.into_packet(Cable0));
    assert_eq!(packet_of([0x0F, 0xFE, 0, 0]), Message::ActiveSensing.into_packet(Cable0));
    assert_eq!(packet_of([0x0F, 0xFF, 0, 0]), Message::Reset.into_packet(Cable0));
}

#[test]
fn from_message_is_into_packet() {
    for message in samples() {
        assert_eq!(
            UsbMidiEventPacket::from_message(Cable1, message),
            message.into_packet(Cable1)
        );
    }
}

#[test]
fn from_message_bytes_parses_first() {
    assert_eq!(
        UsbMidiEventPacket::from_message_bytes(Cable0, &[0x90, 36, 127]),
        Ok(packet_of([0x09, 0x90, 36, 127]))
    );
    assert_eq!(
        UsbMidiEventPacket::from_message_bytes(Cable0, &[0x90, 36, 200]),
        Ok(packet_of([0x09, 0x90, 36, 127]))
    );
    assert_eq!(
        UsbMidiEventPacket::from_message_bytes(Cable0, &[0x90, 36]),
        Err(UsbMidiEventPacketError::MissingDataPacket)
    );
    assert_eq!(
        UsbMidiEventPacket::from_message_bytes(Cable0, &[0xF0, 1, 2]),
        Err(UsbMidiEventPacketError::InvalidEventType(0xF0))
    );
}

#[test]
fn decoding_a_note_on_packet() {
    let packet = packet_of([0x09, 0x90, 36, 127]);
    assert_eq!(packet.cable_number(), Cable0);
    assert_eq!(packet.code_index_number(), CodeIndexNumber::NoteOn);
    let velocity: Velocity = v7(127);
    assert_eq!(Message::try_from(&packet), Ok(Message::NoteOn(Channel1, Note::C2, velocity)));
}

#[test]
fn round_trip_through_a_packet() {
    for cable in 0u8..16 {
        let cable = CableNumber::try_from(cable).unwrap();
        for message in samples() {
            let packet = message.into_packet(cable);
            assert_eq!(packet.cable_number(), cable);
            assert_eq!(packet.code_index_number(), message.code_index_number());
            assert_eq!(Message::try_from(&packet), Ok(message));
        }
    }
}

#[test]
fn message_of_a_packet() {
    for message in samples() {
        let packet = message.into_packet(Cable1);
        assert_eq!(packet.message(), message);
    }
    assert_eq!(
        packet_of([0x09, 0x90, 36, 200]).message(),
        Message::NoteOn(Channel1, Note::C2, v7(127))
    );
}

#[test]
fn round_trip_through_the_payload() {
    for message in samples() {
        let packet = message.into_packet(Cable0);
        assert_eq!(Message::try_from(packet.payload_bytes()), Ok(message));
        assert_eq!(
            UsbMidiEventPacket::try_from_payload_bytes(Cable0, packet.payload_bytes()),
            Ok(packet)
        );
    }
}

#[test]
fn both_classifications_agree() {
    for message in samples() {
        let packet = message.into_packet(Cable0);
        assert_eq!(
            CodeIndexNumber::try_from_payload(packet.payload_bytes()),
            Ok(message.code_index_number())
        );
        assert_eq!(CodeIndexNumber::find_from_message(&message), message.code_index_number());
        let raw = Raw::from(message);
        let data_bytes = match raw.payload {
            Payload::Empty => 0,
            Payload::SingleByte(_) => 1,
            Payload::DoubleByte(_, _) => 2,
        };
        assert_eq!(message.code_index_number().payload_size(), 1 + data_bytes);
    }
}

#[test]
fn code_index_number_of_each_message() {
    let channel = Channel1;
    let note = Note::C2;
    let value = v7(1);
    let table = [
        (Message::NoteOff(channel, note, value), CodeIndexNumber::NoteOff),
        (Message::NoteOn(channel, note, value), CodeIndexNumber::NoteOn),
        (Message::PolyphonicAftertouch(channel, note, value), CodeIndexNumber::PolyKeyPress),
        (Message::ProgramChange(channel, value), CodeIndexNumber::ProgramChange),
        (Message::ChannelAftertouch(channel, value), CodeIndexNumber::ChannelPressure),
        (Message::PitchWheelChange(channel, value, value), CodeIndexNumber::PitchBendChange),
        (Message::ControlChange(channel, control(7), value), CodeIndexNumber::ControlChange),
        (Message::MtcQuarterFrame(value), CodeIndexNumber::SystemCommon2Bytes),
        (Message::SongPositionPointer(value, value), CodeIndexNumber::SystemCommon3Bytes),
        (Message::SongSelect(value), CodeIndexNumber::SystemCommon2Bytes),
        (Message::TuneRequest, CodeIndexNumber::SystemCommon1Byte),
        (Message::TimingClock, CodeIndexNumber::SingleByte),
        (Message::Tick, CodeIndexNumber::SingleByte),
        (Message::Start, CodeIndexNumber::SingleByte),
        (Message::Continue, CodeIndexNumber::SingleByte),
        (Message::Stop, CodeIndexNumber::SingleByte),
        (Message::ActiveSensing, CodeIndexNumber::SingleByte),
        (Message::Reset, CodeIndexNumber::SingleByte),
    ];
    for (message, code) in table {
        assert_eq!(message.code_index_number(), code);
    }
}

#[test]
fn raw_shape_of_each_kind() {
    assert_eq!(
        Raw::from(Message::NoteOn(Channel2, Note::C2, v7(100))),
        Raw { status: 0x91, payload: Payload::DoubleByte(v7(36), v7(100)) }
    );
    assert_eq!(
        Raw::from(Message::NoteOff(Channel::Channel16, Note::G9, v7(0))),
        Raw { status: 0x8F, payload: Payload::DoubleByte(v7(127), v7(0)) }
    );
    assert_eq!(
        Raw::from(Message::PolyphonicAftertouch(Channel1, Note::C1m, v7(5))),
        Raw { status: 0xA0, payload: Payload::DoubleByte(v7(0), v7(5)) }
    );
    assert_eq!(
        Raw::from(Message::ControlChange(Channel1, control(7), v7(9))),
        Raw { status: 0xB0, payload: Payload::DoubleByte(v7(7), v7(9)) }
    );
    assert_eq!(
        Raw::from(Message::ProgramChange(Channel::Channel3, v7(9))),
        Raw { status: 0xC2, payload: Payload::SingleByte(v7(9)) }
    );
    assert_eq!(
        Raw::from(Message::ChannelAftertouch(Channel::Channel4, v7(9))),
        Raw { status: 0xD3, payload: Payload::SingleByte(v7(9)) }
    );
    assert_eq!(
        Raw::from(Message::PitchWheelChange(Channel::Channel5, v7(1), v7(2))),
        Raw { status: 0xE4, payload: Payload::DoubleByte(v7(1), v7(2)) }
    );
    assert_eq!(
        Raw::from(Message::MtcQuarterFrame(v7(3))),
        Raw { status: 0xF1, payload: Payload::SingleByte(v7(3)) }
    );
    assert_eq!(
        Raw::from(Message::SongPositionPointer(v7(3), v7(4))),
        Raw { status: 0xF2, payload: Payload::DoubleByte(v7(3), v7(4)) }
    );
    assert_eq!(
        Raw::from(Message::SongSelect(v7(3))),
        Raw { status: 0xF3, payload: Payload::SingleByte(v7(3)) }
    );
    let statuses = [
        (Message::TuneRequest, 0xF6u8),
        (Message::TimingClock, 0xF8),
        (Message::Tick, 0xF9),
        (Message::Start, 0xFA),
        (Message::Continue, 0xFB),
        (Message::Stop, 0xFC),
        (Message::ActiveSensing, 0xFE),
        (Message::Reset, 0xFF),
    ];
    for (message, status) in statuses {
        assert_eq!(Raw::from(message), Raw { status, payload: Payload::Empty });
    }
}

#[test]
fn parse_without_a_status_byte() {
    assert_eq!(parse(&[]), Err(UsbMidiEventPacketError::MissingDataPacket));
}

#[test]
fn parse_with_missing_data() {
    assert_eq!(parse(&[0x90]), Err(UsbMidiEventPacketError::MissingDataPacket));
    assert_eq!(parse(&[0x90, 36]), Err(UsbMidiEventPacketError::MissingDataPacket));
    assert_eq!(parse(&[0xC0]), Err(UsbMidiEventPacketError::MissingDataPacket));
    assert_eq!(parse(&[0xE0, 1]), Err(UsbMidiEventPacketError::MissingDataPacket));
    assert_eq!(parse(&[0xB0, 1]), Err(UsbMidiEventPacketError::MissingDataPacket));
    assert_eq!(parse(&[0xF1]), Err(UsbMidiEventPacketError::MissingDataPacket));
    assert_eq!(parse(&[0xF2, 1]), Err(UsbMidiEventPacketError::MissingDataPacket));
    assert_eq!(parse(&[0xF3]), Err(UsbMidiEventPacketError::MissingDataPacket));
}

#[test]
fn parse_with_an_invalid_note() {
    assert_eq!(parse(&[0x90, 128, 1]), Err(UsbMidiEventPacketError::InvalidNote(128)));
    assert_eq!(parse(&[0x80, 255, 1]), Err(UsbMidiEventPacketError::InvalidNote(255)));
    assert_eq!(parse(&[0xA0, 200, 1]), Err(UsbMidiEventPacketError::InvalidNote(200)));
    // The note is looked at before the byte behind it is missed.
    assert_eq!(parse(&[0x90, 200]), Err(UsbMidiEventPacketError::InvalidNote(200)));
}

#[test]
fn parse_with_an_invalid_event_type() {
    assert_eq!(parse(&[0x00, 1, 2]), Err(UsbMidiEventPacketError::InvalidEventType(0x00)));
    assert_eq!(parse(&[0x7F, 1, 2]), Err(UsbMidiEventPacketError::InvalidEventType(0x70)));
    assert_eq!(parse(&[0x15]), Err(UsbMidiEventPacketError::InvalidEventType(0x10)));
    for status in [0xF0u8, 0xF4, 0xF5, 0xF7, 0xFD] {
        assert_eq!(parse(&[status, 1, 2]), Err(UsbMidiEventPacketError::InvalidEventType(0xF0)));
    }
}

#[test]
fn parse_clamps_data_bytes() {
    assert_eq!(parse(&[0x90, 36, 200]), Ok(Message::NoteOn(Channel1, Note::C2, v7(127))));
    assert_eq!(parse(&[0xC1, 128]), Ok(Message::ProgramChange(Channel2, v7(127))));
    assert_eq!(parse(&[0xE0, 255, 129]), Ok(Message::PitchWheelChange(Channel1, v7(127), v7(127))));
    assert_eq!(
        parse(&[0xB0, 130, 131]),
        Ok(Message::ControlChange(Channel1, control(127), v7(127)))
    );
    assert_eq!(parse(&[0xF1, 255]), Ok(Message::MtcQuarterFrame(v7(127))));
    // Such a message does not come back as the bytes that it was read from.
    let message = parse(&[0x90, 36, 200]).unwrap();
    assert_eq!(message.into_packet(Cable0).payload_bytes(), &[0x90, 36, 127]);
}

#[test]
fn parse_ignores_what_follows_the_message() {
    assert_eq!(parse(&[0xF8, 1, 2]), Ok(Message::TimingClock));
    assert_eq!(parse(&[0xF6, 9]), Ok(Message::TuneRequest));
    assert_eq!(parse(&[0xC0, 5, 77]), Ok(Message::ProgramChange(Channel1, v7(5))));
    assert_eq!(parse(&[0x90, 36, 1, 2, 3]), Ok(Message::NoteOn(Channel1, Note::C2, v7(1))));
}

#[test]
fn parse_reads_the_channel_from_the_low_nibble() {
    for channel in 0u8..16 {
        assert_eq!(
            parse(&[0x90 | channel, 60, 1]),
            Ok(Message::NoteOn(Channel::try_from(channel).unwrap(), Note::C4, v7(1)))
        );
    }
}
