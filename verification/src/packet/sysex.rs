//! SysEx messages across packets: cutting a message into packets, and
//! putting the packets of a message together again.

use crate::packet::cable_number::CableNumber;
use crate::packet::{UsbMidiEventPacket, UsbMidiEventPacketError};
use vstd::prelude::*;
use vstd::slice::slice_subrange;

verus! {

/// What became of a packet that was handed to a `SysexBuffer`.
#[derive(Debug, Clone, Copy, PartialEq, Eq, Structural)]
pub enum SysexProgress {
    /// The packet is no part of a SysEx message. The buffer was left alone.
    NotSysex,
    /// The packet is part of a SysEx message that the buffer is not
    /// collecting: no start packet came before it, or the message was given
    /// up when it did not fit. The packet was dropped and the buffer left
    /// alone.
    Stray,
    /// The payload was taken in, and the message goes on.
    Pending,
    /// The payload was taken in, and it ends the message: the buffer holds
    /// the payloads of all SysEx packets since the one that started the
    /// message.
    Complete,
    /// The payload does not fit into the buffer. The message is given up:
    /// the buffer was emptied, and the packets that follow are stray until
    /// one starts a message.
    Overflow,
}

/// A bounded accumulator for the bytes of a SysEx message that arrives in
/// several packets. It has room for `N` bytes and allocates nothing.
///
/// A packet that starts a message clears the buffer and opens the message,
/// every packet of an open message appends its payload, and a packet that
/// ends the message closes it and leaves the whole message in the buffer. A
/// message that does not fit is given up as a whole.
#[derive(Debug, Clone, Copy)]
pub struct SysexBuffer<const N: usize> {
    pub(crate) data: [u8; N],
    pub(crate) len: usize,
    pub(crate) collecting: bool,
}

impl<const N: usize> View for SysexBuffer<N> {
    type V = Seq<u8>;

    /// The bytes that the buffer holds.
    open(crate) spec fn view(&self) -> Seq<u8> {
        self.data@.subrange(0, self.len as int)
    }
}

/// The bytes that a buffer holds once it has taken in a packet of a SysEx
/// message: what it held before, unless the packet starts a message,
/// followed by the payload of the packet.
pub open spec fn joined(held: Seq<u8>, packet: Seq<u8>) -> Seq<u8> {
    if UsbMidiEventPacket::sysex_start(packet) {
        UsbMidiEventPacket::payload_of(packet)
    } else {
        held + UsbMidiEventPacket::payload_of(packet)
    }
}

/// What becomes of a packet that is handed to a buffer that holds `held`,
/// has room for `limit` bytes, and is or is not collecting a message.
pub open spec fn progress(
    held: Seq<u8>,
    collecting: bool,
    limit: nat,
    packet: Seq<u8>,
) -> SysexProgress {
    if !UsbMidiEventPacket::sysex(packet) {
        SysexProgress::NotSysex
    } else if !collecting && !UsbMidiEventPacket::sysex_start(packet) {
        SysexProgress::Stray
    } else if joined(held, packet).len() > limit {
        SysexProgress::Overflow
    } else if UsbMidiEventPacket::sysex_end(packet) {
        SysexProgress::Complete
    } else {
        SysexProgress::Pending
    }
}

/// The bytes that a buffer holds, and whether it is collecting a message,
/// after a packet was handed to it. A packet that is taken in is appended;
/// a message that does not fit is given up and the buffer emptied; any
/// other packet leaves the buffer as it was.
pub open spec fn after(held: Seq<u8>, collecting: bool, limit: nat, packet: Seq<u8>) -> (
    Seq<u8>,
    bool,
) {
    match progress(held, collecting, limit, packet) {
        SysexProgress::NotSysex => (held, collecting),
        SysexProgress::Stray => (held, false),
        SysexProgress::Overflow => (seq![], false),
        SysexProgress::Pending => (joined(held, packet), true),
        SysexProgress::Complete => (joined(held, packet), false),
    }
}

/// The state of a buffer after the first `count` of the packets were handed
/// to it, one after the other.
pub open spec fn run(
    held: Seq<u8>,
    collecting: bool,
    limit: nat,
    packets: Seq<Seq<u8>>,
    count: nat,
) -> (Seq<u8>, bool)
    decreases count,
{
    if count == 0 {
        (held, collecting)
    } else {
        let before = run(held, collecting, limit, packets, (count - 1) as nat);
        after(before.0, before.1, limit, packets[count - 1])
    }
}

/// The payloads of the SysEx packets among the first `count` packets, from
/// the last one that starts a message on; where none does, all of them,
/// after the bytes `held`.
pub open spec fn gathered(held: Seq<u8>, packets: Seq<Seq<u8>>, count: nat) -> Seq<u8>
    decreases count,
{
    if count == 0 {
        held
    } else {
        let before = gathered(held, packets, (count - 1) as nat);
        let packet = packets[count - 1];
        if UsbMidiEventPacket::sysex(packet) {
            joined(before, packet)
        } else {
            before
        }
    }
}

/// Whether one of the first `count` packets starts a SysEx message.
pub open spec fn started(packets: Seq<Seq<u8>>, count: nat) -> bool {
    exists|i: int| 0 <= i < count && UsbMidiEventPacket::sysex_start(#[trigger] packets[i])
}

/// A buffer that is collecting holds everything since the start packet, and
/// so does one that has just said `Complete`: the payloads of all SysEx
/// packets from the last start packet on, none left out. A buffer that was
/// not collecting at first has seen a start packet by then. So a message
/// that lost a part to an overflow is never reported as complete.
pub proof fn lemma_complete(
    held: Seq<u8>,
    collecting: bool,
    limit: nat,
    packets: Seq<Seq<u8>>,
    count: nat,
)
    requires
        count <= packets.len(),
    ensures
        ({
            let now = run(held, collecting, limit, packets, count);
            &&& now.1 ==> now.0 == gathered(held, packets, count)
            &&& now.1 ==> collecting || started(packets, count)
            &&& count > 0 ==> {
                let before = run(held, collecting, limit, packets, (count - 1) as nat);
                progress(before.0, before.1, limit, packets[count - 1]) == SysexProgress::Complete
                    ==> now.0 == gathered(held, packets, count) && (collecting || started(
                    packets,
                    count,
                ))
            }
        }),
    decreases count,
{
    if count > 0 {
        let index = (count - 1) as nat;
        lemma_complete(held, collecting, limit, packets, index);
        let packet = packets[index as int];
        if started(packets, index) {
            let i = choose|i: int|
                0 <= i < index && UsbMidiEventPacket::sysex_start(#[trigger] packets[i]);
            assert(0 <= i < count && UsbMidiEventPacket::sysex_start(packets[i]));
        }
        if UsbMidiEventPacket::sysex_start(packet) {
            assert(0 <= index < count && UsbMidiEventPacket::sysex_start(packets[index as int]));
        }
    }
}

/// Whether the bytes are a whole SysEx message: the start byte, data bytes
/// and the terminator.
pub open spec fn is_sysex_message(message: Seq<u8>) -> bool {
    &&& message.len() >= 2
    &&& message[0] == 0xF0
    &&& message[message.len() - 1] == 0xF7
    &&& forall|i: int| 0 < i < message.len() - 1 ==> #[trigger] message[i] < 0x80
}

/// The number of packets that the bytes of a message take, three bytes to
/// a packet.
pub open spec fn piece_count(message: Seq<u8>) -> nat {
    ((message.len() + 2) / 3) as nat
}

/// The bytes of a message that go into the packet with the given index.
pub open spec fn piece(message: Seq<u8>, index: nat) -> Seq<u8> {
    let start = 3 * index as int;
    let end = if start + 3 <= message.len() {
        start + 3
    } else {
        message.len() as int
    };
    message.subrange(start, end)
}

/// The state of a buffer after the packets for the first `count` pieces of
/// a message were handed to it, one after the other.
pub open spec fn fed(
    held: Seq<u8>,
    collecting: bool,
    limit: nat,
    cable: CableNumber,
    message: Seq<u8>,
    count: nat,
) -> (Seq<u8>, bool)
    decreases count,
{
    if count == 0 {
        (held, collecting)
    } else {
        let before = fed(held, collecting, limit, cable, message, (count - 1) as nat);
        after(
            before.0,
            before.1,
            limit,
            UsbMidiEventPacket::encoded(cable, piece(message, (count - 1) as nat))->Ok_0,
        )
    }
}

/// A SysEx message that is cut into pieces of three bytes, sent as packets
/// and handed to a buffer with room for it is put together again: every
/// piece makes a packet, the buffer then holds the bytes of the message up to
/// the end of the piece, whatever state it was in before, and says with the
/// last piece, and not before, that the message is complete.
pub proof fn lemma_reassembly(
    held: Seq<u8>,
    collecting: bool,
    limit: nat,
    cable: CableNumber,
    message: Seq<u8>,
    count: nat,
)
    requires
        is_sysex_message(message),
        message.len() <= limit,
        1 <= count <= piece_count(message),
    ensures
        UsbMidiEventPacket::encoded(cable, piece(message, (count - 1) as nat)) is Ok,
        fed(held, collecting, limit, cable, message, count).0 == message.subrange(
            0,
            if count == piece_count(message) {
                message.len() as int
            } else {
                3 * count as int
            },
        ),
        fed(held, collecting, limit, cable, message, count).1 == (count != piece_count(message)),
        progress(
            fed(held, collecting, limit, cable, message, (count - 1) as nat).0,
            fed(held, collecting, limit, cable, message, (count - 1) as nat).1,
            limit,
            UsbMidiEventPacket::encoded(cable, piece(message, (count - 1) as nat))->Ok_0,
        ) == if count == piece_count(message) {
            SysexProgress::Complete
        } else {
            SysexProgress::Pending
        },
        count == piece_count(message) ==> fed(held, collecting, limit, cable, message, count).0
            == message,
    decreases count,
{
    let index = (count - 1) as nat;
    let start = 3 * index as int;
    let part = piece(message, index);
    let before = fed(held, collecting, limit, cable, message, index);
    if count > 1 {
        lemma_reassembly(held, collecting, limit, cable, message, index);
        assert(before.0 == message.subrange(0, start));
        assert(before.1);
    }
    assert(part.len() >= 1);
    assert(part[0] == message[start]);
    if part.len() > 1 {
        assert(part[1] == message[start + 1]);
    }
    if part.len() > 2 {
        assert(part[2] == message[start + 2]);
    }
    assert(UsbMidiEventPacket::encoded(cable, part) is Ok);
    UsbMidiEventPacket::lemma_encoded(cable, part);
    let packet = UsbMidiEventPacket::encoded(cable, part)->Ok_0;
    assert(UsbMidiEventPacket::payload_of(packet) =~= part);
    assert(UsbMidiEventPacket::sysex(packet));
    assert(UsbMidiEventPacket::sysex_start(packet) <==> index == 0);
    let end = start + part.len();
    assert(joined(before.0, packet) =~= message.subrange(0, end));
    assert(message.subrange(0, message.len() as int) =~= message);
}

/// What `sysex_packets` yields for one piece of a message: the packet made
/// of the piece, or the reason why the piece makes none.
pub open spec fn packet_for(cable: CableNumber, part: Seq<u8>) -> Result<
    UsbMidiEventPacket,
    UsbMidiEventPacketError,
> {
    match UsbMidiEventPacket::encoded(cable, part) {
        Ok(bytes) => Ok(UsbMidiEventPacket::of_bytes(bytes)),
        Err(e) => Err(e),
    }
}

/// Cuts the bytes of a message into pieces of three bytes, the last one of
/// what is left, and makes the packet that carries each piece over `cable`.
///
/// For a whole SysEx message every piece makes a packet. A piece of other
/// bytes may make none: its place then holds the error.
pub fn sysex_packets(cable: CableNumber, message: &[u8]) -> (r: Vec<
    Result<UsbMidiEventPacket, UsbMidiEventPacketError>,
>)
    ensures
        r@.len() == piece_count(message@),
        forall|i: int|
            0 <= i < r@.len() ==> #[trigger] r@[i] == packet_for(cable, piece(message@, i as nat)),
{
    let mut packets: Vec<Result<UsbMidiEventPacket, UsbMidiEventPacketError>> = Vec::new();
    let mut position: usize = 0;
    while position < message.len()
        invariant
            position <= message@.len(),
            position == 3 * packets@.len() || position == message@.len(),
            packets@.len() == if position == message@.len() {
                piece_count(message@)
            } else {
                (position / 3) as nat
            },
            forall|i: int|
                0 <= i < packets@.len() ==> #[trigger] packets@[i] == packet_for(
                    cable,
                    piece(message@, i as nat),
                ),
        decreases message@.len() - position,
    {
        let end = if message.len() - position >= 3 {
            position + 3
        } else {
            message.len()
        };
        let part = slice_subrange(message, position, end);
        assert(part@ == piece(message@, packets@.len()));
        let packet = UsbMidiEventPacket::try_from_payload_bytes(cable, part);
        proof {
            if packet is Ok {
                packet->Ok_0.lemma_view(packet->Ok_0);
            }
        }
        packets.push(packet);
        position = end;
    }
    packets
}

impl<const N: usize> SysexBuffer<N> {
    /// The buffer never holds more bytes than it has room for.
    #[verifier::type_invariant]
    pub open(crate) spec fn wf(self) -> bool {
        self.len <= N
    }

    /// Whether the buffer is collecting a message: a start packet has opened
    /// it, and neither an end packet nor an overflow has closed it.
    pub open(crate) spec fn collecting(self) -> bool {
        self.collecting
    }

    /// Creates an empty buffer that collects no message yet.
    pub fn new() -> (r: Self)
        ensures
            r@ == Seq::<u8>::empty(),
            !r.collecting(),
            r.wf(),
    {
        SysexBuffer { data: [0u8; N], len: 0, collecting: false }
    }

    /// Returns the number of bytes that the buffer can hold.
    pub fn capacity(&self) -> (r: usize)
        ensures
            r == N,
    {
        N
    }

    /// Returns the number of bytes that the buffer holds.
    pub fn len(&self) -> (r: usize)
        ensures
            r == self@.len(),
            r <= N,
    {
        proof {
            use_type_invariant(self);
        }
        self.len
    }

    /// Returns whether the buffer holds no byte.
    pub fn is_empty(&self) -> (r: bool)
        ensures
            r == (self@.len() == 0),
    {
        proof {
            use_type_invariant(self);
        }
        self.len == 0
    }

    /// Returns whether the buffer is collecting a message.
    pub fn is_collecting(&self) -> (r: bool)
        ensures
            r == self.collecting(),
    {
        self.collecting
    }

    /// Returns the bytes that the buffer holds.
    pub fn as_slice(&self) -> (r: &[u8])
        ensures
            r@ == self@,
    {
        proof {
            use_type_invariant(self);
        }
        slice_subrange(self.data.as_slice(), 0, self.len)
    }

    /// Empties the buffer and gives up the message that it was collecting.
    pub fn clear(&mut self)
        ensures
            final(self)@ == Seq::<u8>::empty(),
            !final(self).collecting(),
            final(self).wf(),
    {
        self.len = 0;
        self.collecting = false;
    }

    /// Hands a received packet to the buffer and says what became of it.
    ///
    /// The result is `Complete` only for a message of which the buffer has
    /// taken in every packet since the one that started it. After an
    /// overflow nothing is complete until a new message has started.
    pub fn push(&mut self, packet: &UsbMidiEventPacket) -> (r: SysexProgress)
        ensures
            r == progress(old(self)@, old(self).collecting(), N as nat, packet@),
            (final(self)@, final(self).collecting()) == after(
                old(self)@,
                old(self).collecting(),
                N as nat,
                packet@,
            ),
            final(self).wf(),
    {
        proof {
            use_type_invariant(&*self);
        }
        if !packet.is_sysex() {
            return SysexProgress::NotSysex;
        }
        if packet.is_sysex_start() {
            self.len = 0;
        } else if !self.collecting {
            return SysexProgress::Stray;
        }
        let payload = packet.payload_bytes();
        if payload.len() > N - self.len {
            self.len = 0;
            self.collecting = false;
            assert(self@ =~= Seq::<u8>::empty());
            return SysexProgress::Overflow;
        }
        let ghost held = self@;
        let mut i: usize = 0;
        while i < payload.len()
            invariant
                i <= payload@.len(),
                self.len == held.len() + i,
                held.len() + payload@.len() <= N,
                self@ == held + payload@.subrange(0, i as int),
            decreases payload@.len() - i,
        {
            let ghost data_before = self.data@;
            let ghost len_before = self.len as int;
            self.data[self.len] = payload[i];
            self.len += 1;
            i += 1;
            assert forall|k: int| 0 <= k < self@.len() implies self@[k] == (held
                + payload@.subrange(0, i as int))[k] by {
                if k < len_before {
                    assert(self@[k] == data_before.subrange(0, len_before)[k]);
                }
            }
            assert(self@ =~= held + payload@.subrange(0, i as int));
        }
        assert(payload@.subrange(0, payload@.len() as int) =~= payload@);
        if packet.is_sysex_end() {
            self.collecting = false;
            SysexProgress::Complete
        } else {
            self.collecting = true;
            SysexProgress::Pending
        }
    }
}

} // verus!
