use usbd_midi::packet::code_index_number::CodeIndexNumber;
use usbd_midi::packet::UsbMidiEventPacketError;

fn classify(payload: &[u8]) -> Result<CodeIndexNumber, UsbMidiEventPacketError> {
    CodeIndexNumber::try_from_payload(payload)
}

#[test]
fn payload_of_voice_messages() {
    assert_eq!(classify(&[0x80, 60, 64]), Ok(CodeIndexNumber::NoteOff));
    assert_eq!(classify(&[0x90, 60, 64]), Ok(CodeIndexNumber::NoteOn));
    assert_eq!(classify(&[0xA0, 48, 32]), Ok(CodeIndexNumber::PolyKeyPress));
    assert_eq!(classify(&[0xB0, 10, 127]), Ok(CodeIndexNumber::ControlChange));
    assert_eq!(classify(&[0xC0, 5]), Ok(CodeIndexNumber::ProgramChange));
    assert_eq!(classify(&[0xD0, 54]), Ok(CodeIndexNumber::ChannelPressure));
    assert_eq!(classify(&[0xE0, 32, 96]), Ok(CodeIndexNumber::PitchBendChange));
}

#[test]
fn payload_of_voice_messages_on_every_channel() {
    for channel in 0u8..16 {
        assert_eq!(classify(&[0x80 | channel]), Ok(CodeIndexNumber::NoteOff));
        assert_eq!(classify(&[0x90 | channel]), Ok(CodeIndexNumber::NoteOn));
        assert_eq!(classify(&[0xA0 | channel]), Ok(CodeIndexNumber::PolyKeyPress));
        assert_eq!(classify(&[0xB0 | channel]), Ok(CodeIndexNumber::ControlChange));
        assert_eq!(classify(&[0xC0 | channel]), Ok(CodeIndexNumber::ProgramChange));
        assert_eq!(classify(&[0xD0 | channel]), Ok(CodeIndexNumber::ChannelPressure));
        assert_eq!(classify(&[0xE0 | channel]), Ok(CodeIndexNumber::PitchBendChange));
    }
}

#[test]
fn payload_of_system_common_messages() {
    assert_eq!(classify(&[0xF1, 12]), Ok(CodeIndexNumber::SystemCommon2Bytes));
    assert_eq!(classify(&[0xF2, 3, 8]), Ok(CodeIndexNumber::SystemCommon3Bytes));
    assert_eq!(classify(&[0xF3, 15]), Ok(CodeIndexNumber::SystemCommon2Bytes));
    assert_eq!(classify(&[0xF6]), Ok(CodeIndexNumber::SystemCommon1Byte));
}

#[test]
fn payload_of_realtime_messages() {
    for status in [0xF8u8, 0xF9, 0xFA, 0xFB, 0xFC, 0xFE, 0xFF] {
        assert_eq!(classify(&[status]), Ok(CodeIndexNumber::SingleByte));
    }
}

#[test]
fn payload_sysex_starts() {
    assert_eq!(classify(&[0xF0, 1, 2]), Ok(CodeIndexNumber::SysexStartsOrContinues));
    assert_eq!(classify(&[0xF0]), Err(UsbMidiEventPacketError::InvalidPayloadSize));
    assert_eq!(classify(&[0xF0, 1]), Err(UsbMidiEventPacketError::InvalidPayloadSize));
}

#[test]
fn payload_sysex_continues() {
    assert_eq!(classify(&[1]), Ok(CodeIndexNumber::SingleByte));
    assert_eq!(classify(&[1, 2]), Err(UsbMidiEventPacketError::InvalidPayloadSize));
    assert_eq!(classify(&[1, 2, 3]), Ok(CodeIndexNumber::SysexStartsOrContinues));
    assert_eq!(classify(&[1, 2, 3, 4]), Ok(CodeIndexNumber::SysexStartsOrContinues));
    assert_eq!(classify(&[0x7F]), Ok(CodeIndexNumber::SingleByte));
    assert_eq!(classify(&[0]), Ok(CodeIndexNumber::SingleByte));
}

#[test]
fn payload_sysex_ends() {
    assert_eq!(classify(&[0xF7]), Ok(CodeIndexNumber::SystemCommon1Byte));
    assert_eq!(classify(&[1, 0xF7]), Ok(CodeIndexNumber::SysexEnds2Bytes));
    assert_eq!(classify(&[1, 2, 0xF7]), Ok(CodeIndexNumber::SysexEnds3Bytes));
    assert_eq!(classify(&[0xF0, 0xF7]), Ok(CodeIndexNumber::SysexEnds2Bytes));
    assert_eq!(classify(&[0xF0, 1, 0xF7]), Ok(CodeIndexNumber::SysexEnds3Bytes));
    // The first terminator decides.
    assert_eq!(classify(&[1, 0xF7, 0xF7]), Ok(CodeIndexNumber::SysexEnds2Bytes));
}

#[test]
fn payload_with_undefined_status() {
    assert_eq!(classify(&[0xF4]), Err(UsbMidiEventPacketError::InvalidPayloadStatus));
    assert_eq!(classify(&[0xF5]), Err(UsbMidiEventPacketError::InvalidPayloadStatus));
    assert_eq!(classify(&[0xFD]), Err(UsbMidiEventPacketError::InvalidPayloadStatus));
    assert_eq!(classify(&[0xF4, 1, 2]), Err(UsbMidiEventPacketError::InvalidPayloadStatus));
}

#[test]
fn payload_empty() {
    assert_eq!(classify(&[]), Err(UsbMidiEventPacketError::EmptyPayload));
}
