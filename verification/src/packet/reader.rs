//! Readers for received packets.

use crate::class::{MAX_PACKET_SIZE, MIDI_PACKET_SIZE};
use crate::packet::{UsbMidiEventPacket, UsbMidiEventPacketError};
use vstd::prelude::*;
use vstd::slice::slice_subrange;

verus! {

/// The item that a reader yields for a window of the buffer: the packet made
/// of its bytes if they are four, an error if they are fewer.
pub open spec fn item_of(window: Seq<u8>) -> Result<UsbMidiEventPacket, UsbMidiEventPacketError> {
    if window.len() == MIDI_PACKET_SIZE {
        Ok(UsbMidiEventPacket::of_bytes(window))
    } else {
        Err(UsbMidiEventPacketError::InvalidPacket)
    }
}

/// Packet reader over a buffer with a received message, in windows of four
/// bytes.
///
/// The reader takes any number of received bytes and reads no further than
/// the buffer reaches. No byte beyond the received ones is read: when their
/// number is no multiple of four, the last window is short and yields an
/// error.
pub struct UsbMidiPacketReader<'a> {
    pub(crate) buffer: &'a [u8; MAX_PACKET_SIZE],
    pub(crate) position: usize,
    pub(crate) raw_bytes_received: usize,
}

impl<'a> UsbMidiPacketReader<'a> {
    /// The cursor stands at the start of a window or at the end of what
    /// there is to read.
    #[verifier::type_invariant]
    pub open(crate) spec fn wf(self) -> bool {
        &&& self.position <= self.end()
        &&& (self.position % MIDI_PACKET_SIZE == 0 || self.position == self.end())
    }

    /// The bytes of the buffer.
    pub open(crate) spec fn buffer(self) -> Seq<u8> {
        self.buffer@
    }

    /// The number of bytes that were received into the buffer.
    pub open(crate) spec fn received(self) -> nat {
        self.raw_bytes_received as nat
    }

    /// The place of the next window in the buffer.
    pub open(crate) spec fn position(self) -> nat {
        self.position as nat
    }

    /// The place where reading ends: after the received bytes, and at the
    /// end of the buffer at the latest.
    pub open spec fn end(self) -> nat {
        if self.received() < MAX_PACKET_SIZE {
            self.received()
        } else {
            MAX_PACKET_SIZE as nat
        }
    }

    /// Whether the reader has another item to yield: the cursor stands
    /// before the end of what was received and of the buffer.
    pub open spec fn has_next(self) -> bool {
        self.position() < self.end()
    }

    /// The number of items that the reader has yet to yield: the bytes
    /// between the cursor and the end, by four and rounded up.
    pub open spec fn remaining(self) -> nat {
        if self.position() < self.end() {
            ((self.end() - self.position() + 3) / 4) as nat
        } else {
            0
        }
    }

    /// The window that starts `index` windows after the cursor: four bytes,
    /// or what is left before the end.
    pub open spec fn window(self, index: nat) -> Seq<u8> {
        let start = self.position() + index * MIDI_PACKET_SIZE;
        let end = if start + MIDI_PACKET_SIZE <= self.end() {
            start + MIDI_PACKET_SIZE
        } else {
            self.end() as int
        };
        self.buffer().subrange(start, end)
    }

    /// Of the windows that are left only the last can be short, and it is
    /// when the bytes that are left are no multiple of four. Every window
    /// before it yields the packet made of its four bytes, the short one
    /// yields an error, and no window holds a byte that was not received.
    pub proof fn lemma_windows(self, index: nat)
        requires
            self.wf(),
            index < self.remaining(),
        ensures
            self.position() + 4 * index + self.window(index).len() <= self.received(),
            self.window(index).len() == 4 <==> self.position() + 4 * (index + 1) <= self.end(),
            self.window(index).len() == 4 ==> item_of(self.window(index)) == Ok::<
                UsbMidiEventPacket,
                UsbMidiEventPacketError,
            >(
                UsbMidiEventPacket::of_bytes(
                    self.buffer().subrange(
                        self.position() + 4 * index as int,
                        self.position() + 4 * index as int + 4,
                    ),
                ),
            ),
            self.window(index).len() != 4 ==> item_of(self.window(index)) == Err::<
                UsbMidiEventPacket,
                UsbMidiEventPacketError,
            >(UsbMidiEventPacketError::InvalidPacket),
            index + 1 < self.remaining() ==> self.window(index).len() == 4,
            index + 1 == self.remaining() ==> (self.window(index).len() == 4 <==> (self.end()
                - self.position()) % 4 == 0),
    {
    }

    /// Creates a new reader.
    pub fn new(buffer: &'a [u8; MAX_PACKET_SIZE], raw_bytes_received: usize) -> (r: Self)
        ensures
            r.buffer() == buffer@,
            r.received() == raw_bytes_received,
            r.position() == 0,
            r.wf(),
    {
        UsbMidiPacketReader { buffer, position: 0, raw_bytes_received }
    }

    /// Yields the packet in the next window, or an error if the window is
    /// short, or `None` when the cursor has reached the end of the received
    /// bytes or of the buffer. After `None` comes `None`.
    pub fn next(&mut self) -> (r: Option<Result<UsbMidiEventPacket, UsbMidiEventPacketError>>)
        ensures
            final(self).wf(),
            final(self).buffer() == old(self).buffer(),
            final(self).received() == old(self).received(),
            old(self).has_next() <==> old(self).remaining() > 0,
            old(self).has_next() ==> {
                &&& r == Some(item_of(old(self).window(0)))
                &&& final(self).position() == old(self).position() + old(self).window(0).len()
                &&& final(self).remaining() + 1 == old(self).remaining()
            },
            !old(self).has_next() ==> r is None && final(self).position() == old(self).position(),
    {
        proof {
            use_type_invariant(&*self);
        }
        let limit = if self.raw_bytes_received < MAX_PACKET_SIZE {
            self.raw_bytes_received
        } else {
            MAX_PACKET_SIZE
        };
        if self.position < limit {
            let end = if limit - self.position >= MIDI_PACKET_SIZE {
                self.position + MIDI_PACKET_SIZE
            } else {
                limit
            };
            let window = slice_subrange(self.buffer.as_slice(), self.position, end);
            let packet = UsbMidiEventPacket::try_from(window);
            self.position = end;
            return Some(packet);
        }
        None
    }

    /// Yields all the items that are left, in the order of the buffer: a
    /// packet for every whole window, and an error for a short last one.
    pub fn packets(self) -> (r: Vec<Result<UsbMidiEventPacket, UsbMidiEventPacketError>>)
        ensures
            r@.len() == self.remaining(),
            forall|i: int| 0 <= i < r@.len() ==> #[trigger] r@[i] == item_of(self.window(i as nat)),
            forall|i: int|
                0 <= i < r@.len() ==> ((#[trigger] r@[i]) is Ok <==> self.position() + 4 * (i + 1)
                    <= self.end()),
    {
        let mut reader = self;
        let mut items: Vec<Result<UsbMidiEventPacket, UsbMidiEventPacketError>> = Vec::new();
        proof {
            use_type_invariant(&reader);
        }
        loop
            invariant
                reader.wf(),
                self.wf(),
                reader.buffer() == self.buffer(),
                reader.received() == self.received(),
                reader.remaining() > 0 ==> reader.position() == self.position() + items@.len()
                    * MIDI_PACKET_SIZE,
                reader.remaining() + items@.len() == self.remaining(),
                forall|i: int|
                    0 <= i < items@.len() ==> #[trigger] items@[i] == item_of(
                        self.window(i as nat),
                    ),
            decreases reader.remaining(),
        {
            let ghost before = reader;
            match reader.next() {
                Some(item) => {
                    assert(before.window(0) == self.window(items@.len()));
                    items.push(item);
                },
                None => {
                    assert forall|i: int| 0 <= i < items@.len() implies ((#[trigger] items@[i])
                        is Ok <==> self.position() + 4 * (i + 1) <= self.end()) by {
                        self.lemma_windows(i as nat);
                    }
                    return items;
                },
            }
        }
    }
}

/// Packet reader over the received part of a buffer, in chunks of up to four
/// bytes.
///
/// When the number of received bytes is no multiple of four, the last chunk
/// is short and yields an error.
pub struct MidiPacketBufferReader<'a> {
    pub(crate) buffer: &'a [u8; MAX_PACKET_SIZE],
    pub(crate) position: usize,
    pub(crate) raw_bytes_received: usize,
}

impl<'a> MidiPacketBufferReader<'a> {
    /// The cursor stands at the start of a chunk or at the end of the
    /// received bytes, which lie inside the buffer.
    #[verifier::type_invariant]
    pub open(crate) spec fn wf(self) -> bool {
        &&& self.raw_bytes_received <= MAX_PACKET_SIZE
        &&& self.position <= self.raw_bytes_received
        &&& (self.position % MIDI_PACKET_SIZE == 0 || self.position == self.raw_bytes_received)
    }

    /// The bytes of the buffer.
    pub open(crate) spec fn buffer(self) -> Seq<u8> {
        self.buffer@
    }

    /// The number of bytes that were received into the buffer.
    pub open(crate) spec fn received(self) -> nat {
        self.raw_bytes_received as nat
    }

    /// The place of the next chunk in the buffer.
    pub open(crate) spec fn position(self) -> nat {
        self.position as nat
    }

    /// The number of chunks that the reader has yet to yield: the received
    /// bytes after the cursor, by four and rounded up.
    pub open spec fn remaining(self) -> nat {
        if self.position() < self.received() {
            ((self.received() - self.position() + 3) / 4) as nat
        } else {
            0
        }
    }

    /// The chunk that starts `index` chunks after the cursor: four bytes, or
    /// what is left of the received bytes.
    pub open spec fn chunk(self, index: nat) -> Seq<u8> {
        let start = self.position() + index * MIDI_PACKET_SIZE;
        let end = if start + MIDI_PACKET_SIZE <= self.received() {
            start + MIDI_PACKET_SIZE
        } else {
            self.received() as int
        };
        self.buffer().subrange(start, end)
    }

    /// Of the chunks that are left only the last can be short, and it is
    /// when the bytes that are left are no multiple of four: every chunk
    /// before it yields the packet made of its four bytes, so an error at the
    /// end loses none of them.
    pub proof fn lemma_chunks(self, index: nat)
        requires
            self.wf(),
            index < self.remaining(),
        ensures
            self.chunk(index).len() == 4 ==> item_of(self.chunk(index)) == Ok::<
                UsbMidiEventPacket,
                UsbMidiEventPacketError,
            >(
                UsbMidiEventPacket::of_bytes(
                    self.buffer().subrange(
                        self.position() + 4 * index as int,
                        self.position() + 4 * index as int + 4,
                    ),
                ),
            ),
            self.chunk(index).len() != 4 ==> item_of(self.chunk(index)) == Err::<
                UsbMidiEventPacket,
                UsbMidiEventPacketError,
            >(UsbMidiEventPacketError::InvalidPacket),
            index + 1 < self.remaining() ==> self.chunk(index).len() == 4,
            index + 1 == self.remaining() ==> (self.chunk(index).len() == 4 <==> (self.received()
                - self.position()) % 4 == 0),
    {
    }

    /// Creates a new reader over the first `raw_bytes_received` bytes of the
    /// buffer.
    pub fn new(buffer: &'a [u8; MAX_PACKET_SIZE], raw_bytes_received: usize) -> (r: Self)
        requires
            raw_bytes_received <= MAX_PACKET_SIZE,
        ensures
            r.buffer() == buffer@,
            r.received() == raw_bytes_received,
            r.position() == 0,
            r.wf(),
    {
        MidiPacketBufferReader { buffer, position: 0, raw_bytes_received }
    }

    /// The number of items that the reader has yet to yield.
    pub fn len(&self) -> (r: usize)
        ensures
            r == self.remaining(),
    {
        proof {
            use_type_invariant(self);
        }
        (self.raw_bytes_received - self.position + 3) / MIDI_PACKET_SIZE
    }

    /// Yields the packet in the next chunk, or an error if the chunk is
    /// short, or `None` when all received bytes were read. After `None` comes
    /// `None`.
    pub fn next(&mut self) -> (r: Option<Result<UsbMidiEventPacket, UsbMidiEventPacketError>>)
        ensures
            final(self).wf(),
            final(self).buffer() == old(self).buffer(),
            final(self).received() == old(self).received(),
            old(self).remaining() > 0 ==> {
                &&& r == Some(item_of(old(self).chunk(0)))
                &&& final(self).position() == old(self).position() + old(self).chunk(0).len()
                &&& final(self).remaining() + 1 == old(self).remaining()
            },
            old(self).remaining() == 0 ==> r is None && final(self).position() == old(
                self,
            ).position(),
    {
        proof {
            use_type_invariant(&*self);
        }
        if self.position < self.raw_bytes_received {
            let end = if self.raw_bytes_received - self.position >= MIDI_PACKET_SIZE {
                self.position + MIDI_PACKET_SIZE
            } else {
                self.raw_bytes_received
            };
            let chunk = slice_subrange(self.buffer.as_slice(), self.position, end);
            let packet = UsbMidiEventPacket::try_from(chunk);
            self.position = end;
            return Some(packet);
        }
        None
    }

    /// Yields all the items that are left, in the order of the buffer: a
    /// packet for every whole chunk, and an error for a short last one.
    pub fn packets(self) -> (r: Vec<Result<UsbMidiEventPacket, UsbMidiEventPacketError>>)
        ensures
            r@.len() == self.remaining(),
            forall|i: int| 0 <= i < r@.len() ==> #[trigger] r@[i] == item_of(self.chunk(i as nat)),
    {
        let mut reader = self;
        let mut items: Vec<Result<UsbMidiEventPacket, UsbMidiEventPacketError>> = Vec::new();
        proof {
            use_type_invariant(&reader);
        }
        loop
            invariant
                reader.wf(),
                self.wf(),
                reader.buffer() == self.buffer(),
                reader.received() == self.received(),
                reader.remaining() > 0 ==> reader.position() == self.position() + items@.len()
                    * MIDI_PACKET_SIZE,
                reader.remaining() + items@.len() == self.remaining(),
                forall|i: int|
                    0 <= i < items@.len() ==> #[trigger] items@[i] == item_of(
                        self.chunk(i as nat),
                    ),
            decreases reader.remaining(),
        {
            let ghost before = reader;
            match reader.next() {
                Some(item) => {
                    assert(before.chunk(0) == self.chunk(items@.len()));
                    items.push(item);
                },
                None => {
                    return items;
                },
            }
        }
    }
}

/// The two readers agree on what lies inside the buffer: from the start
/// they have the same number of items to yield, and the same bytes in every
/// window, the short last one too.
pub proof fn lemma_readers_agree(
    fixed: UsbMidiPacketReader,
    chunked: MidiPacketBufferReader,
    index: nat,
)
    requires
        fixed.wf(),
        chunked.wf(),
        fixed.buffer() == chunked.buffer(),
        fixed.received() == chunked.received(),
        fixed.position() == 0,
        chunked.position() == 0,
        index < chunked.remaining(),
    ensures
        fixed.remaining() == chunked.remaining(),
        fixed.window(index) == chunked.chunk(index),
        item_of(fixed.window(index)) == item_of(chunked.chunk(index)),
{
}

} // verus!
