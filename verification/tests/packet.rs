use usbd_midi::packet::cable_number::CableNumber;
use usbd_midi::packet::code_index_number::CodeIndexNumber;
use usbd_midi::packet::{MidiPacketParsingError, UsbMidiEventPacket, UsbMidiEventPacketError};

type Decoded = (CableNumber, Vec<u8>, bool, bool, bool);

fn decode(raw: [u8; 4]) -> Decoded {
    let packet = UsbMidiEventPacket::try_from(raw.as_slice()).unwrap();
    (
        packet.cable_number(),
        packet.payload_bytes().to_vec(),
        packet.is_sysex(),
        packet.is_sysex_start(),
        packet.is_sysex_end(),
    )
}

fn plain(cable: CableNumber, payload: &[u8]) -> Decoded {
    (cable, payload.to_vec(), false, false, false)
}

fn encode(cable: CableNumber, payload: &[u8]) -> Result<[u8; 4], UsbMidiEventPacketError> {
    UsbMidiEventPacket::try_from_payload_bytes(cable, payload).map(|packet| packet.to_raw_bytes())
}

#[test]
fn packet_needs_four_bytes() {
    for len in [0usize, 1, 2, 3, 5, 8] {
        let bytes = vec![0x09u8; len];
        assert_eq!(
            UsbMidiEventPacket::try_from(bytes.as_slice()),
            Err(UsbMidiEventPacketError::InvalidPacket)
        );
    }
    let packet = UsbMidiEventPacket::try_from([0x09u8, 0x90, 36, 127].as_slice()).unwrap();
    assert_eq!(packet.to_raw_bytes(), [0x09, 0x90, 36, 127]);
    assert_eq!(packet.as_raw_bytes(), &[0x09, 0x90, 36, 127]);
    assert_eq!(<[u8; 4]>::from(packet), [0x09, 0x90, 36, 127]);
    assert_eq!(packet.header(), 0x09);
}

#[test]
fn the_old_error_name_is_the_same_type() {
    let error: MidiPacketParsingError = UsbMidiEventPacketError::InvalidPacket;
    assert_eq!(error, MidiPacketParsingError::InvalidPacket);
}

#[test]
fn decode_voice_packets() {
    assert_eq!(decode([0x18, 0x80, 60, 64]), plain(CableNumber::Cable1, &[0x80, 60, 64]));
    assert_eq!(decode([0x49, 0x92, 48, 20]), plain(CableNumber::Cable4, &[0x92, 48, 20]));
    assert_eq!(decode([0x0A, 0xA0, 15, 74]), plain(CableNumber::Cable0, &[0xA0, 15, 74]));
    assert_eq!(decode([0x0B, 0xB0, 64, 127]), plain(CableNumber::Cable0, &[0xB0, 64, 127]));
    assert_eq!(decode([0x0C, 0xC0, 5, 0]), plain(CableNumber::Cable0, &[0xC0, 5]));
    assert_eq!(decode([0x0D, 0xD0, 85, 0]), plain(CableNumber::Cable0, &[0xD0, 85]));
    assert_eq!(decode([0x0E, 0xE0, 40, 120]), plain(CableNumber::Cable0, &[0xE0, 40, 120]));
}

#[test]
fn decode_system_packets() {
    assert_eq!(decode([0x02, 0xF1, 27, 0]), plain(CableNumber::Cable0, &[0xF1, 27]));
    assert_eq!(decode([0x03, 0xF2, 38, 17]), plain(CableNumber::Cable0, &[0xF2, 38, 17]));
    assert_eq!(decode([0x02, 0xF3, 2, 0]), plain(CableNumber::Cable0, &[0xF3, 2]));
    assert_eq!(decode([0x05, 0xF6, 0, 0]), plain(CableNumber::Cable0, &[0xF6]));
    for status in [0xF8u8, 0xF9, 0xFA, 0xFB, 0xFC, 0xFE, 0xFF] {
        assert_eq!(decode([0x0F, status, 0, 0]), plain(CableNumber::Cable0, &[status]));
    }
}

#[test]
fn decode_sysex_packets() {
    let cable = CableNumber::Cable0;
    assert_eq!(decode([0x04, 0xF0, 1, 2]), (cable, vec![0xF0, 1, 2], true, true, false));
    assert_eq!(decode([0x0F, 1, 0, 0]), (cable, vec![1], true, false, false));
    assert_eq!(decode([0x04, 1, 2, 3]), (cable, vec![1, 2, 3], true, false, false));
    assert_eq!(decode([0x05, 0xF7, 0, 0]), (cable, vec![0xF7], true, false, true));
    assert_eq!(decode([0x06, 1, 0xF7, 0]), (cable, vec![1, 0xF7], true, false, true));
    assert_eq!(decode([0x07, 1, 2, 0xF7]), (cable, vec![1, 2, 0xF7], true, false, true));
    assert_eq!(decode([0x06, 0xF0, 0xF7, 0]), (cable, vec![0xF0, 0xF7], true, true, true));
    assert_eq!(decode([0x07, 0xF0, 1, 0xF7]), (cable, vec![0xF0, 1, 0xF7], true, true, true));
}

#[test]
fn decode_undefined_and_reserved_packets() {
    assert_eq!(decode([0x02, 0xF4, 1, 0]), plain(CableNumber::Cable0, &[0xF4, 1]));
    assert_eq!(decode([0x03, 0xF5, 1, 2]), plain(CableNumber::Cable0, &[0xF5, 1, 2]));
    assert_eq!(decode([0x00, 0, 0, 0]), plain(CableNumber::Cable0, &[0, 0, 0]));
    assert_eq!(decode([0xF1, 9, 8, 7]), plain(CableNumber::Cable15, &[9, 8, 7]));
}

#[test]
fn decode_note_on_packet() {
    let packet = UsbMidiEventPacket::try_from([0x09u8, 0x90, 36, 127].as_slice()).unwrap();
    assert_eq!(packet.cable_number(), CableNumber::Cable0);
    assert_eq!(packet.code_index_number(), CodeIndexNumber::NoteOn);
    assert_eq!(packet.payload_bytes(), &[0x90, 36, 127]);
}

#[test]
fn payload_bytes_leave_the_padding_out() {
    let packet = UsbMidiEventPacket::try_from([0x0Cu8, 0xC0, 127, 0].as_slice()).unwrap();
    assert_eq!(packet.payload_bytes(), &[0xC0, 127]);
    assert_eq!(packet.payload_bytes().len(), 2);
    // What stands behind the payload is ignored, whatever it is.
    let packet = UsbMidiEventPacket::try_from([0x0Cu8, 0xC0, 127, 99].as_slice()).unwrap();
    assert_eq!(packet.payload_bytes(), &[0xC0, 127]);
}

#[test]
fn every_header_has_a_cable_and_a_code() {
    for header in 0u8..=255 {
        let packet = UsbMidiEventPacket::try_from([header, 1, 2, 3].as_slice()).unwrap();
        assert_eq!(u8::from(packet.cable_number()), header >> 4);
        assert_eq!(u8::from(packet.code_index_number()), header & 0x0F);
        assert_eq!(packet.header(), header);
        let size = packet.code_index_number().payload_size();
        assert_eq!(packet.payload_bytes(), &[1u8, 2, 3][..size]);
    }
}

#[test]
fn sysex_start_needs_a_sysex_packet_and_the_start_byte() {
    let start = UsbMidiEventPacket::try_from([0x04u8, 0xF0, 1, 2].as_slice()).unwrap();
    assert!(start.is_sysex());
    assert!(start.is_sysex_start());
    let continuation = UsbMidiEventPacket::try_from([0x04u8, 1, 2, 3].as_slice()).unwrap();
    assert!(continuation.is_sysex());
    assert!(!continuation.is_sysex_start());
    // The start byte under a code that is no SysEx code starts nothing.
    let other = UsbMidiEventPacket::try_from([0x09u8, 0xF0, 1, 2].as_slice()).unwrap();
    assert!(!other.is_sysex());
    assert!(!other.is_sysex_start());
    for header in 0u8..=255 {
        for first in [0u8, 0x7F, 0x80, 0xF0, 0xF7, 0xFF] {
            let packet = UsbMidiEventPacket::try_from([header, first, 0, 0].as_slice()).unwrap();
            assert_eq!(packet.is_sysex_start(), packet.is_sysex() && first == 0xF0);
        }
    }
}

#[test]
fn sysex_end_looks_at_all_three_bytes() {
    for raw in [[0x04u8, 0xF7, 0, 0], [0x04, 0, 0xF7, 0], [0x04, 0, 0, 0xF7]] {
        assert!(UsbMidiEventPacket::try_from(raw.as_slice()).unwrap().is_sysex_end());
    }
    // A terminator in a packet that is no SysEx packet ends nothing.
    let other = UsbMidiEventPacket::try_from([0x09u8, 0x90, 0xF7, 0].as_slice()).unwrap();
    assert!(!other.is_sysex_end());
    // A single byte above the data range is no SysEx byte.
    let clock = UsbMidiEventPacket::try_from([0x0Fu8, 0xF8, 0, 0].as_slice()).unwrap();
    assert!(!clock.is_sysex());
    // A Tune Request shares the code of the lone terminator.
    let tune = UsbMidiEventPacket::try_from([0x05u8, 0xF6, 0, 0].as_slice()).unwrap();
    assert!(!tune.is_sysex());
}

#[test]
fn encode_voice_payloads() {
    assert_eq!(encode(CableNumber::Cable3, &[0x80, 33, 75]), Ok([0x38, 0x80, 33, 75]));
    assert_eq!(encode(CableNumber::Cable2, &[0x96, 67, 14]), Ok([0x29, 0x96, 67, 14]));
    assert_eq!(encode(CableNumber::Cable0, &[0xA0, 48, 72]), Ok([0x0A, 0xA0, 48, 72]));
    assert_eq!(encode(CableNumber::Cable0, &[0xB0, 10, 127]), Ok([0x0B, 0xB0, 10, 127]));
    assert_eq!(encode(CableNumber::Cable0, &[0xC0, 36]), Ok([0x0C, 0xC0, 36, 0]));
    assert_eq!(encode(CableNumber::Cable0, &[0xD0, 115]), Ok([0x0D, 0xD0, 115, 0]));
    assert_eq!(encode(CableNumber::Cable0, &[0xE0, 93, 46]), Ok([0x0E, 0xE0, 93, 46]));
    assert_eq!(encode(CableNumber::Cable15, &[0x9F, 1, 2]), Ok([0xF9, 0x9F, 1, 2]));
}

#[test]
fn encode_ignores_extra_bytes() {
    assert_eq!(encode(CableNumber::Cable0, &[0xC0, 36, 54]), Ok([0x0C, 0xC0, 36, 0]));
    assert_eq!(encode(CableNumber::Cable0, &[0xD0, 115, 27]), Ok([0x0D, 0xD0, 115, 0]));
    assert_eq!(encode(CableNumber::Cable0, &[0xF1, 102, 46]), Ok([0x02, 0xF1, 102, 0]));
    assert_eq!(encode(CableNumber::Cable0, &[0xF1, 102, 46, 7]), Ok([0x02, 0xF1, 102, 0]));
    assert_eq!(encode(CableNumber::Cable0, &[0xF3, 24, 96]), Ok([0x02, 0xF3, 24, 0]));
    assert_eq!(encode(CableNumber::Cable0, &[0xF6, 67, 72]), Ok([0x05, 0xF6, 0, 0]));
    assert_eq!(encode(CableNumber::Cable0, &[0xF8, 38, 126]), Ok([0x0F, 0xF8, 0, 0]));
    assert_eq!(encode(CableNumber::Cable0, &[0x90, 1, 2, 3, 4, 5]), Ok([0x09, 0x90, 1, 2]));
}

#[test]
fn encode_system_payloads() {
    assert_eq!(encode(CableNumber::Cable0, &[0xF2, 42, 74]), Ok([0x03, 0xF2, 42, 74]));
    assert_eq!(encode(CableNumber::Cable0, &[0xF3, 24]), Ok([0x02, 0xF3, 24, 0]));
    assert_eq!(encode(CableNumber::Cable0, &[0xF6]), Ok([0x05, 0xF6, 0, 0]));
    for status in [0xF8u8, 0xF9, 0xFA, 0xFB, 0xFC, 0xFE, 0xFF] {
        assert_eq!(encode(CableNumber::Cable0, &[status]), Ok([0x0F, status, 0, 0]));
    }
}

#[test]
fn encode_sysex_payloads() {
    let cable = CableNumber::Cable0;
    assert_eq!(encode(cable, &[0xF0, 1, 2]), Ok([0x04, 0xF0, 1, 2]));
    assert_eq!(encode(cable, &[0xF0]), Err(UsbMidiEventPacketError::InvalidPayloadSize));
    assert_eq!(encode(cable, &[0xF0, 1]), Err(UsbMidiEventPacketError::InvalidPayloadSize));
    assert_eq!(encode(cable, &[1]), Ok([0x0F, 1, 0, 0]));
    assert_eq!(encode(cable, &[1, 2]), Err(UsbMidiEventPacketError::InvalidPayloadSize));
    assert_eq!(encode(cable, &[1, 2, 3]), Ok([0x04, 1, 2, 3]));
    assert_eq!(encode(cable, &[0xF7]), Ok([0x05, 0xF7, 0, 0]));
    assert_eq!(encode(cable, &[1, 0xF7]), Ok([0x06, 1, 0xF7, 0]));
    assert_eq!(encode(cable, &[1, 2, 0xF7]), Ok([0x07, 1, 2, 0xF7]));
    assert_eq!(encode(cable, &[0xF0, 0xF7]), Ok([0x06, 0xF0, 0xF7, 0]));
    assert_eq!(encode(cable, &[0xF0, 1, 0xF7]), Ok([0x07, 0xF0, 1, 0xF7]));
}

#[test]
fn encode_rejects_what_it_cannot_classify() {
    let cable = CableNumber::Cable0;
    assert_eq!(encode(cable, &[0xF4]), Err(UsbMidiEventPacketError::InvalidPayloadStatus));
    assert_eq!(encode(cable, &[0xF5]), Err(UsbMidiEventPacketError::InvalidPayloadStatus));
    assert_eq!(encode(cable, &[]), Err(UsbMidiEventPacketError::EmptyPayload));
}

#[test]
fn encode_rejects_a_short_payload() {
    let cable = CableNumber::Cable3;
    assert_eq!(encode(cable, &[0x80, 26]), Err(UsbMidiEventPacketError::InvalidPayloadSize));
    assert_eq!(encode(cable, &[0x80]), Err(UsbMidiEventPacketError::InvalidPayloadSize));
    assert_eq!(encode(cable, &[0xC0]), Err(UsbMidiEventPacketError::InvalidPayloadSize));
    assert_eq!(encode(cable, &[0xF1]), Err(UsbMidiEventPacketError::InvalidPayloadSize));
    assert_eq!(encode(cable, &[0xF2, 1]), Err(UsbMidiEventPacketError::InvalidPayloadSize));
}

#[test]
fn encoded_payload_comes_back() {
    let payloads: [&[u8]; 8] = [
        &[0x90, 60, 100],
        &[0xC5, 7],
        &[0xF8],
        &[0xF0, 0x7E, 0x7F],
        &[0x06, 0x01, 0xF7],
        &[0x7E],
        &[0xF7],
        &[0xF2, 1, 2, 99],
    ];
    for cable in 0u8..16 {
        let cable = CableNumber::try_from(cable).unwrap();
        for payload in payloads {
            let packet = UsbMidiEventPacket::try_from_payload_bytes(cable, payload).unwrap();
            let size = CodeIndexNumber::try_from_payload(payload).unwrap().payload_size();
            assert_eq!(packet.cable_number(), cable);
            assert_eq!(
                Ok(packet.code_index_number()),
                CodeIndexNumber::try_from_payload(payload)
            );
            assert_eq!(packet.payload_bytes(), &payload[..size]);
        }
    }
}
