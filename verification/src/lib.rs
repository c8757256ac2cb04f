//! USB MIDI event packet codec.
//!
//! The crate turns the 4-byte event packets that a USB MIDI device exchanges
//! with its host into MIDI messages and back, splits the buffer of a bulk
//! transfer into packets, collects the packets of a System Exclusive message,
//! and lays out the configuration descriptors of the device class.

pub mod class;
pub mod message;
pub mod packet;
pub mod util;

pub use crate::class::{InvalidArguments, MidiJacks, MAX_PACKET_SIZE, MIDI_PACKET_SIZE};
pub use crate::message::Message;
pub use crate::packet::cable_number::CableNumber;
pub use crate::packet::code_index_number::CodeIndexNumber;
pub use crate::packet::reader::{MidiPacketBufferReader, UsbMidiPacketReader};
pub use crate::packet::sysex::{SysexBuffer, SysexProgress};
pub use crate::packet::{MidiPacketParsingError, UsbMidiEventPacket, UsbMidiEventPacketError};
