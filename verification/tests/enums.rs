use usbd_midi::message::channel::{Channel, InvalidChannel};
use usbd_midi::message::control_function::ControlFunction;
use usbd_midi::message::data::u4::U4;
use usbd_midi::message::data::u7::U7;
use usbd_midi::message::notes::{InvalidNote, Note};
use usbd_midi::packet::cable_number::CableNumber;
use usbd_midi::packet::code_index_number::CodeIndexNumber;
use usbd_midi::packet::UsbMidiEventPacketError;

const CABLES: [CableNumber; 16] = [
    CableNumber::Cable0,
    CableNumber::Cable1,
    CableNumber::Cable2,
    CableNumber::Cable3,
    CableNumber::Cable4,
    CableNumber::Cable5,
    CableNumber::Cable6,
    CableNumber::Cable7,
    CableNumber::Cable8,
    CableNumber::Cable9,
    CableNumber::Cable10,
    CableNumber::Cable11,
    CableNumber::Cable12,
    CableNumber::Cable13,
    CableNumber::Cable14,
    CableNumber::Cable15,
];

const CHANNELS: [Channel; 16] = [
    Channel::Channel1,
    Channel::Channel2,
    Channel::Channel3,
    Channel::Channel4,
    Channel::Channel5,
    Channel::Channel6,
    Channel::Channel7,
    Channel::Channel8,
    Channel::Channel9,
    Channel::Channel10,
    Channel::Channel11,
    Channel::Channel12,
    Channel::Channel13,
    Channel::Channel14,
    Channel::Channel15,
    Channel::Channel16,
];

const CODES: [CodeIndexNumber; 16] = [
    CodeIndexNumber::MiscFunction,
    CodeIndexNumber::CableEvents,
    CodeIndexNumber::SystemCommon2Bytes,
    CodeIndexNumber::SystemCommon3Bytes,
    CodeIndexNumber::SysexStartsOrContinues,
    CodeIndexNumber::SystemCommon1Byte,
    CodeIndexNumber::SysexEnds2Bytes,
    CodeIndexNumber::SysexEnds3Bytes,
    CodeIndexNumber::NoteOff,
    CodeIndexNumber::NoteOn,
    CodeIndexNumber::PolyKeyPress,
    CodeIndexNumber::ControlChange,
    CodeIndexNumber::ProgramChange,
    CodeIndexNumber::ChannelPressure,
    CodeIndexNumber::PitchBendChange,
    CodeIndexNumber::SingleByte,
];

#[test]
fn cable_numbers_on_the_wire() {
    for (expected, cable) in CABLES.iter().enumerate() {
        assert_eq!(u8::from(*cable), expected as u8);
        assert_eq!(CableNumber::try_from(expected as u8), Ok(*cable));
        assert_eq!(U4::from(*cable), U4::try_from(expected as u8).unwrap());
    }
}

#[test]
fn cable_number_out_of_range() {
    for value in 16u8..=255 {
        assert_eq!(
            CableNumber::try_from(value),
            Err(UsbMidiEventPacketError::InvalidCableNumber(value))
        );
    }
}

#[test]
fn cable_number_default_is_the_first() {
    assert_eq!(CableNumber::default(), CableNumber::Cable0);
}

#[test]
fn channels_on_the_wire() {
    for (expected, channel) in CHANNELS.iter().enumerate() {
        assert_eq!(u8::from(*channel), expected as u8);
        assert_eq!(Channel::try_from(expected as u8), Ok(*channel));
    }
    assert_eq!(u8::from(Channel::Channel1), 0);
    assert_eq!(u8::from(Channel::Channel16), 15);
}

#[test]
fn channel_out_of_range() {
    for value in 16u8..=255 {
        assert_eq!(Channel::try_from(value), Err(InvalidChannel(value)));
    }
}

#[test]
fn code_index_numbers_on_the_wire() {
    for (expected, code) in CODES.iter().enumerate() {
        assert_eq!(u8::from(*code), expected as u8);
        assert_eq!(CodeIndexNumber::try_from(expected as u8), Ok(*code));
        assert_eq!(U4::from(*code), U4::try_from(expected as u8).unwrap());
    }
    assert_eq!(u8::from(CodeIndexNumber::NoteOn), 0x9);
    assert_eq!(u8::from(CodeIndexNumber::SysexStartsOrContinues), 0x4);
}

#[test]
fn code_index_number_out_of_range() {
    for value in 16u8..=255 {
        assert_eq!(
            CodeIndexNumber::try_from(value),
            Err(UsbMidiEventPacketError::InvalidCodeIndexNumber(value))
        );
    }
}

#[test]
fn payload_size_table() {
    let sizes: [usize; 16] = [3, 3, 2, 3, 3, 1, 2, 3, 3, 3, 3, 3, 2, 2, 3, 1];
    for (code, size) in CODES.iter().zip(sizes.iter()) {
        assert_eq!(code.payload_size(), *size);
        assert!((1..=3).contains(&code.payload_size()));
    }
}

#[test]
fn notes_on_the_wire() {
    for value in 0u8..=127 {
        let note = Note::try_from(value).unwrap();
        assert_eq!(u8::from(note), value);
        assert_eq!(U7::from(note), U7::try_from(value).unwrap());
    }
    assert_eq!(u8::from(Note::C1m), 0);
    assert_eq!(u8::from(Note::C0), 12);
    assert_eq!(u8::from(Note::C2), 36);
    assert_eq!(u8::from(Note::A4), 69);
    assert_eq!(u8::from(Note::Gs8), 116);
    assert_eq!(u8::from(Note::G9), 127);
}

#[test]
fn note_out_of_range() {
    for value in 128u8..=255 {
        assert_eq!(Note::try_from(value), Err(InvalidNote(value)));
    }
}

#[test]
fn flat_notes_name_the_sharp_ones() {
    assert_eq!(Note::Db1m, Note::Cs1m);
    assert_eq!(u8::from(Note::Db1m), 1);
    assert_eq!(u8::from(Note::Eb1m), 3);
    assert_eq!(u8::from(Note::Gb1m), 6);
    assert_eq!(u8::from(Note::Ab1m), 8);
    assert_eq!(u8::from(Note::Bb1m), 10);
    assert_eq!(u8::from(Note::Bb3), 58);
    assert_eq!(Note::Bb3, Note::As3);
    assert_eq!(u8::from(Note::Ab8), 116);
    assert_eq!(u8::from(Note::Db9), 121);
    assert_eq!(u8::from(Note::Eb9), 123);
    assert_eq!(u8::from(Note::Gb9), 126);
}

#[test]
fn control_function_numbers() {
    assert_eq!(ControlFunction::BANK_SELECT_0, 0);
    assert_eq!(ControlFunction::MOD_WHEEL_1, 1);
    assert_eq!(ControlFunction::CHANNEL_VOLUME_7, 7);
    assert_eq!(ControlFunction::PAN_10, 10);
    assert_eq!(ControlFunction::LSB_FOR_BANK_SELECT_32, 32);
    assert_eq!(ControlFunction::ALL_SOUND_OFF_120, 120);
    assert_eq!(ControlFunction::ALL_NOTES_OFF_123, 123);
    assert_eq!(ControlFunction::POLY_MODE_ON_127, 127);
    let control = ControlFunction(U7::try_from(ControlFunction::MOD_WHEEL_1).unwrap());
    assert_eq!(u8::from(control.0), 1);
}
