//! Constants of the USB MIDI class and the layout of its configuration
//! descriptors.
//!
//! The device class itself talks to the USB stack. What it writes into the
//! configuration descriptor is decided here: the jack numbering, the length
//! of the class-specific block and the order and contents of the descriptors.

use vstd::prelude::*;

verus! {

/// Size of a single packet in bytes.
pub const MIDI_PACKET_SIZE: usize = 4;

/// Maximum transfer size of an endpoint.
pub const MAX_PACKET_SIZE: usize = 64;

/// Largest number of jacks in one direction.
pub const MAX_JACKS: u8 = 16;

/// Class code of a device that names its classes per interface.
pub const USB_CLASS_NONE: u8 = 0x00;

/// Class code of the audio class, to which MIDI streaming belongs.
pub const USB_AUDIO_CLASS: u8 = 0x01;

/// Subclass code of the audio control interface.
pub const USB_AUDIOCONTROL_SUBCLASS: u8 = 0x01;

/// Subclass code of the MIDI streaming interface.
pub const USB_MIDISTREAMING_SUBCLASS: u8 = 0x03;

/// Descriptor subtype of a MIDI IN jack.
pub const MIDI_IN_JACK_SUBTYPE: u8 = 0x02;

/// Descriptor subtype of a MIDI OUT jack.
pub const MIDI_OUT_JACK_SUBTYPE: u8 = 0x03;

/// Jack type of a jack inside the device.
pub const EMBEDDED: u8 = 0x01;

/// Jack type of a jack on the outside of the device.
pub const EXTERNAL: u8 = 0x02;

/// Descriptor type of a class-specific interface descriptor.
pub const CS_INTERFACE: u8 = 0x24;

/// Descriptor type of a class-specific endpoint descriptor.
pub const CS_ENDPOINT: u8 = 0x25;

/// Descriptor subtype of the audio control header.
pub const HEADER_SUBTYPE: u8 = 0x01;

/// Descriptor subtype of the MIDI streaming header.
pub const MS_HEADER_SUBTYPE: u8 = 0x01;

/// Descriptor subtype of the class-specific endpoint descriptor.
pub const MS_GENERAL: u8 = 0x01;

/// Place of the header of the MIDI streaming block among the descriptors of
/// the configuration. The length that the header announces counts from here.
pub const STREAMING_HEADER_INDEX: usize = 3;

/// Length of a MIDI IN jack descriptor.
pub const MIDI_IN_SIZE: u8 = 0x06;

/// Length of a MIDI OUT jack descriptor with one input pin.
pub const MIDI_OUT_SIZE: u8 = 0x09;

/// Error returned when passing invalid arguments to `MidiJacks::new`.
#[derive(Debug, Clone, Copy, PartialEq, Eq, Structural)]
pub struct InvalidArguments;

/// What a descriptor of the configuration is, and so how it is written.
#[derive(Debug, Clone, Copy, PartialEq, Eq, Structural)]
pub enum DescriptorKind {
    /// Standard interface descriptor of the audio control interface. The
    /// body holds class, subclass and protocol.
    AudioControlInterface,
    /// Standard interface descriptor of the MIDI streaming interface. The
    /// body holds class, subclass and protocol.
    MidiStreamingInterface,
    /// Class-specific interface descriptor. The body follows the length and
    /// the descriptor type `CS_INTERFACE`.
    ClassInterface,
    /// Standard descriptor of the bulk OUT endpoint. The body holds the two
    /// bytes that the audio class appends: refresh and synch address.
    BulkOutEndpoint,
    /// Standard descriptor of the bulk IN endpoint. The body holds the two
    /// bytes that the audio class appends: refresh and synch address.
    BulkInEndpoint,
    /// Class-specific endpoint descriptor. The body follows the length and
    /// the descriptor type `CS_ENDPOINT`.
    ClassEndpoint,
}

/// One descriptor of the configuration.
#[derive(Debug, PartialEq, Eq)]
pub struct Descriptor {
    /// What the descriptor is.
    pub kind: DescriptorKind,
    /// The bytes that are particular to this descriptor.
    pub body: Vec<u8>,
}

impl View for Descriptor {
    type V = (DescriptorKind, Seq<u8>);

    open spec fn view(&self) -> (DescriptorKind, Seq<u8>) {
        (self.kind, self.body@)
    }
}

/// The id of the external MIDI IN jack with the given index.
pub open spec fn in_ext_id(index: nat) -> nat {
    2 * index + 1
}

/// The id of the embedded MIDI OUT jack with the given index.
pub open spec fn out_emb_id(index: nat) -> nat {
    2 * index + 2
}

/// The id of the external MIDI OUT jack with the given index, where there
/// are `n_in` jacks towards the host.
pub open spec fn out_ext_id(n_in: nat, index: nat) -> nat {
    2 * n_in + 2 * index + 1
}

/// The id of the embedded MIDI IN jack with the given index, where there
/// are `n_in` jacks towards the host.
pub open spec fn in_emb_id(n_in: nat, index: nat) -> nat {
    2 * n_in + 2 * index + 2
}

/// The number of bytes that the class-specific MIDI streaming descriptors
/// take: the header, an IN and an OUT jack descriptor for each jack, and for
/// each of the two endpoints its standard and its class-specific descriptor.
pub open spec fn streaming_length(n_in: nat, n_out: nat) -> nat {
    7 + (n_in + n_out) * (MIDI_IN_SIZE + MIDI_OUT_SIZE) as nat + 9 + (4 + n_out) + 9 + (4 + n_in)
}

/// The descriptors up to the header of the MIDI streaming block.
pub open spec fn layout_head(n_in: nat, n_out: nat) -> Seq<(DescriptorKind, Seq<u8>)> {
    let total = streaming_length(n_in, n_out);
    seq![
        (
            DescriptorKind::AudioControlInterface,
            seq![USB_AUDIO_CLASS, USB_AUDIOCONTROL_SUBCLASS, 0u8],
        ),
        (DescriptorKind::ClassInterface, seq![HEADER_SUBTYPE, 0x00u8, 0x01, 0x09, 0x00, 0x01, 0x01]),
        (
            DescriptorKind::MidiStreamingInterface,
            seq![USB_AUDIO_CLASS, USB_MIDISTREAMING_SUBCLASS, 0u8],
        ),
        (
            DescriptorKind::ClassInterface,
            seq![MS_HEADER_SUBTYPE, 0x00u8, 0x01, (total % 256) as u8, (total / 256) as u8],
        ),
    ]
}

/// The descriptor of the external MIDI IN jack with the given index.
pub open spec fn in_ext_jack(index: nat) -> (DescriptorKind, Seq<u8>) {
    (
        DescriptorKind::ClassInterface,
        seq![MIDI_IN_JACK_SUBTYPE, EXTERNAL, in_ext_id(index) as u8, 0x00u8],
    )
}

/// The descriptor of the embedded MIDI IN jack with the given index.
pub open spec fn in_emb_jack(n_in: nat, index: nat) -> (DescriptorKind, Seq<u8>) {
    (
        DescriptorKind::ClassInterface,
        seq![MIDI_IN_JACK_SUBTYPE, EMBEDDED, in_emb_id(n_in, index) as u8, 0x00u8],
    )
}

/// The descriptor of the external MIDI OUT jack with the given index. Its
/// one pin is connected to the embedded IN jack with that index.
pub open spec fn out_ext_jack(n_in: nat, index: nat) -> (DescriptorKind, Seq<u8>) {
    (
        DescriptorKind::ClassInterface,
        seq![
            MIDI_OUT_JACK_SUBTYPE,
            EXTERNAL,
            out_ext_id(n_in, index) as u8,
            0x01u8,
            in_emb_id(n_in, index) as u8,
            0x01,
            0x00,
        ],
    )
}

/// The descriptor of the embedded MIDI OUT jack with the given index. Its
/// one pin is connected to the external IN jack with that index.
pub open spec fn out_emb_jack(index: nat) -> (DescriptorKind, Seq<u8>) {
    (
        DescriptorKind::ClassInterface,
        seq![
            MIDI_OUT_JACK_SUBTYPE,
            EMBEDDED,
            out_emb_id(index) as u8,
            0x01u8,
            in_ext_id(index) as u8,
            0x01,
            0x00,
        ],
    )
}

/// The jack descriptors: the external IN jacks, the embedded IN jacks, the
/// external OUT jacks and the embedded OUT jacks.
pub open spec fn layout_jacks(n_in: nat, n_out: nat) -> Seq<(DescriptorKind, Seq<u8>)> {
    Seq::new(n_in, |i: int| in_ext_jack(i as nat)) + Seq::new(
        n_out,
        |i: int| in_emb_jack(n_in, i as nat),
    ) + Seq::new(n_out, |i: int| out_ext_jack(n_in, i as nat)) + Seq::new(
        n_in,
        |i: int| out_emb_jack(i as nat),
    )
}

/// The class-specific descriptor of the bulk OUT endpoint: the number of
/// the embedded IN jacks and their ids.
pub open spec fn out_endpoint_jacks(n_in: nat, n_out: nat) -> (DescriptorKind, Seq<u8>) {
    (
        DescriptorKind::ClassEndpoint,
        seq![MS_GENERAL, n_out as u8] + Seq::new(n_out, |i: int| in_emb_id(n_in, i as nat) as u8),
    )
}

/// The class-specific descriptor of the bulk IN endpoint: the number of the
/// embedded OUT jacks and their ids.
pub open spec fn in_endpoint_jacks(n_in: nat) -> (DescriptorKind, Seq<u8>) {
    (
        DescriptorKind::ClassEndpoint,
        seq![MS_GENERAL, n_in as u8] + Seq::new(n_in, |i: int| out_emb_id(i as nat) as u8),
    )
}

/// The descriptors of the two endpoints.
pub open spec fn layout_endpoints(n_in: nat, n_out: nat) -> Seq<(DescriptorKind, Seq<u8>)> {
    seq![
        (DescriptorKind::BulkOutEndpoint, seq![0u8, 0u8]),
        out_endpoint_jacks(n_in, n_out),
        (DescriptorKind::BulkInEndpoint, seq![0u8, 0u8]),
        in_endpoint_jacks(n_in),
    ]
}

/// All descriptors of a MIDI class with `n_in` jacks towards the host and
/// `n_out` jacks from the host, in the order in which they are written.
pub open spec fn layout(n_in: nat, n_out: nat) -> Seq<(DescriptorKind, Seq<u8>)> {
    layout_head(n_in, n_out) + layout_jacks(n_in, n_out) + layout_endpoints(n_in, n_out)
}

/// The number of bytes that a descriptor takes once it is written: an
/// interface descriptor has nine bytes, an endpoint descriptor seven and its
/// body, a class-specific descriptor two and its body.
pub open spec fn written_len(descriptor: (DescriptorKind, Seq<u8>)) -> nat {
    match descriptor.0 {
        DescriptorKind::AudioControlInterface | DescriptorKind::MidiStreamingInterface => 9,
        DescriptorKind::BulkOutEndpoint | DescriptorKind::BulkInEndpoint => 7
            + descriptor.1.len(),
        DescriptorKind::ClassInterface | DescriptorKind::ClassEndpoint => 2 + descriptor.1.len(),
    }
}

/// The number of bytes that a sequence of descriptors takes.
pub open spec fn total_len(descriptors: Seq<(DescriptorKind, Seq<u8>)>) -> nat
    decreases descriptors.len(),
{
    if descriptors.len() == 0 {
        0
    } else {
        total_len(descriptors.drop_last()) + written_len(descriptors.last())
    }
}

/// The views of a sequence of descriptors.
pub open spec fn views(descriptors: Seq<Descriptor>) -> Seq<(DescriptorKind, Seq<u8>)> {
    Seq::new(descriptors.len(), |i: int| descriptors[i]@)
}

/// The views of a sequence with one more descriptor.
proof fn lemma_views_push(descriptors: Seq<Descriptor>, last: Descriptor)
    ensures
        views(descriptors.push(last)) == views(descriptors).push(last@),
{
    assert(views(descriptors.push(last)) =~= views(descriptors).push(last@));
}

/// The length of a run with one more descriptor.
proof fn lemma_total_len_push(
    run: Seq<(DescriptorKind, Seq<u8>)>,
    last: (DescriptorKind, Seq<u8>),
)
    ensures
        total_len(run.push(last)) == total_len(run) + written_len(last),
{
    assert(run.push(last).drop_last() =~= run);
}

/// The length of two runs of descriptors is the sum of their lengths.
proof fn lemma_total_len_add(
    a: Seq<(DescriptorKind, Seq<u8>)>,
    b: Seq<(DescriptorKind, Seq<u8>)>,
)
    ensures
        total_len(a + b) == total_len(a) + total_len(b),
    decreases b.len(),
{
    if b.len() == 0 {
        assert(a + b =~= a);
    } else {
        lemma_total_len_add(a, b.drop_last());
        assert((a + b).drop_last() =~= a + b.drop_last());
        assert((a + b).last() == b.last());
    }
}

/// The length of a run of descriptors that all have the same length.
proof fn lemma_total_len_uniform(run: Seq<(DescriptorKind, Seq<u8>)>, each: nat)
    requires
        forall|i: int| 0 <= i < run.len() ==> written_len(#[trigger] run[i]) == each,
    ensures
        total_len(run) == run.len() * each,
    decreases run.len(),
{
    if run.len() > 0 {
        lemma_total_len_uniform(run.drop_last(), each);
        assert(run.len() * each == (run.len() - 1) * each + each) by (nonlinear_arith);
    }
}

/// The length that the header of the MIDI streaming block announces is the
/// length of that block: of all descriptors from the header on.
pub proof fn lemma_streaming_length(n_in: nat, n_out: nat)
    ensures
        layout(n_in, n_out).len() == 8 + 2 * (n_in + n_out),
        total_len(
            layout(n_in, n_out).subrange(
                STREAMING_HEADER_INDEX as int,
                layout(n_in, n_out).len() as int,
            ),
        ) == streaming_length(n_in, n_out),
{
    let all = layout(n_in, n_out);
    let start = STREAMING_HEADER_INDEX as int;
    let header = layout_head(n_in, n_out).subrange(start, start + 1);
    let a = Seq::new(n_in, |i: int| in_ext_jack(i as nat));
    let b = Seq::new(n_out, |i: int| in_emb_jack(n_in, i as nat));
    let c = Seq::new(n_out, |i: int| out_ext_jack(n_in, i as nat));
    let d = Seq::new(n_in, |i: int| out_emb_jack(i as nat));
    let e = layout_endpoints(n_in, n_out);
    assert(all.subrange(start, all.len() as int) =~= header + a + b + c + d + e);
    lemma_total_len_add(header + a + b + c + d, e);
    lemma_total_len_add(header + a + b + c, d);
    lemma_total_len_add(header + a + b, c);
    lemma_total_len_add(header + a, b);
    lemma_total_len_add(header, a);
    lemma_total_len_uniform(header, 7);
    lemma_total_len_uniform(a, 6);
    lemma_total_len_uniform(b, 6);
    lemma_total_len_uniform(c, 9);
    lemma_total_len_uniform(d, 9);
    assert(total_len(e) == 9 + (4 + n_out) + 9 + (4 + n_in)) by {
        let none = Seq::<(DescriptorKind, Seq<u8>)>::empty();
        lemma_total_len_push(none, e[0]);
        lemma_total_len_push(none.push(e[0]), e[1]);
        lemma_total_len_push(none.push(e[0]).push(e[1]), e[2]);
        lemma_total_len_push(none.push(e[0]).push(e[1]).push(e[2]), e[3]);
        assert(e =~= none.push(e[0]).push(e[1]).push(e[2]).push(e[3]));
    }
    assert((n_in + n_out) * 15 == n_in * 6 + n_out * 6 + n_out * 9 + n_in * 9) by (nonlinear_arith);
}

/// Every jack has an id of its own: the ids of the jacks towards the host
/// take the numbers from 1 to `2 * n_in`, odd for the external IN jacks and
/// even for the embedded OUT jacks, and the ids of the jacks from the host
/// take the next `2 * n_out` numbers in the same way. With at most sixteen
/// jacks in each direction an id fits into a byte.
pub proof fn lemma_jack_ids(n_in: nat, n_out: nat, i: nat, j: nat)
    requires
        i < n_in <= MAX_JACKS,
        j < n_out <= MAX_JACKS,
    ensures
        1 <= in_ext_id(i) < out_emb_id(i) <= 2 * n_in,
        2 * n_in < out_ext_id(n_in, j) < in_emb_id(n_in, j) <= 2 * (n_in + n_out) <= 64,
        in_ext_id(i) % 2 == 1 && out_emb_id(i) % 2 == 0,
        out_ext_id(n_in, j) % 2 == 1 && in_emb_id(n_in, j) % 2 == 0,
        forall|k: nat| in_ext_id(k) == in_ext_id(i) || out_emb_id(k) == out_emb_id(i) ==> k == i,
        forall|k: nat|
            out_ext_id(n_in, k) == out_ext_id(n_in, j) || in_emb_id(n_in, k) == in_emb_id(n_in, j)
                ==> k == j,
{
}

/// The numbers of MIDI jacks of a device, which decide what its
/// configuration descriptor holds.
#[derive(Debug, Clone, Copy, PartialEq, Eq)]
pub struct MidiJacks {
    pub(crate) n_in_jacks: u8,
    pub(crate) n_out_jacks: u8,
}

impl MidiJacks {
    /// There are at most sixteen jacks in each direction.
    #[verifier::type_invariant]
    pub open(crate) spec fn wf(self) -> bool {
        self.n_in_jacks <= MAX_JACKS && self.n_out_jacks <= MAX_JACKS
    }

    /// The number of jacks towards the host.
    pub open(crate) spec fn n_in(self) -> nat {
        self.n_in_jacks as nat
    }

    /// The number of jacks from the host.
    pub open(crate) spec fn n_out(self) -> nat {
        self.n_out_jacks as nat
    }

    /// Takes the numbers of embedded input and output jacks (or "cables",
    /// depending on the terminology). A maximum of 16 in and 16 out jacks is
    /// supported.
    pub fn new(n_in_jacks: u8, n_out_jacks: u8) -> (r: Result<MidiJacks, InvalidArguments>)
        ensures
            n_in_jacks > MAX_JACKS || n_out_jacks > MAX_JACKS ==> r == Err::<
                MidiJacks,
                InvalidArguments,
            >(InvalidArguments),
            n_in_jacks <= MAX_JACKS && n_out_jacks <= MAX_JACKS ==> r is Ok && r->Ok_0.n_in()
                == n_in_jacks && r->Ok_0.n_out() == n_out_jacks && r->Ok_0.wf(),
    {
        if n_in_jacks > MAX_JACKS || n_out_jacks > MAX_JACKS {
            return Err(InvalidArguments);
        }
        Ok(MidiJacks { n_in_jacks, n_out_jacks })
    }

    /// Returns the number of jacks towards the host.
    pub fn n_in_jacks(&self) -> (r: u8)
        ensures
            r == self.n_in(),
            r <= MAX_JACKS,
    {
        proof {
            use_type_invariant(self);
        }
        self.n_in_jacks
    }

    /// Returns the number of jacks from the host.
    pub fn n_out_jacks(&self) -> (r: u8)
        ensures
            r == self.n_out(),
            r <= MAX_JACKS,
    {
        proof {
            use_type_invariant(self);
        }
        self.n_out_jacks
    }

    /// Calculates the index'th external midi in jack id.
    pub fn in_jack_id_ext(&self, index: u8) -> (r: u8)
        requires
            index < self.n_in(),
        ensures
            r == in_ext_id(index as nat),
    {
        proof {
            use_type_invariant(self);
        }
        2 * index + 1
    }

    /// Calculates the index'th embedded midi out jack id.
    pub fn out_jack_id_emb(&self, index: u8) -> (r: u8)
        requires
            index < self.n_in(),
        ensures
            r == out_emb_id(index as nat),
    {
        proof {
            use_type_invariant(self);
        }
        2 * index + 2
    }

    /// Calculates the index'th external midi out jack id.
    pub fn out_jack_id_ext(&self, index: u8) -> (r: u8)
        requires
            index < self.n_out(),
        ensures
            r == out_ext_id(self.n_in(), index as nat),
    {
        proof {
            use_type_invariant(self);
        }
        2 * self.n_in_jacks + 2 * index + 1
    }

    /// Calculates the index'th embedded midi in jack id.
    pub fn in_jack_id_emb(&self, index: u8) -> (r: u8)
        requires
            index < self.n_out(),
        ensures
            r == in_emb_id(self.n_in(), index as nat),
    {
        proof {
            use_type_invariant(self);
        }
        2 * self.n_in_jacks + 2 * index + 2
    }

    /// Calculates the length of the class-specific MIDI streaming descriptors.
    pub fn streaming_total_length(&self) -> (r: usize)
        ensures
            r == streaming_length(self.n_in(), self.n_out()),
            r <= 545,
    {
        proof {
            use_type_invariant(self);
        }
        let n_in: usize = self.n_in_jacks as usize;
        let n_out: usize = self.n_out_jacks as usize;
        let jack_size: usize = MIDI_IN_SIZE as usize + MIDI_OUT_SIZE as usize;
        assert((n_in + n_out) * jack_size <= 32 * 15) by (nonlinear_arith)
            requires
                n_in + n_out <= 32,
                jack_size == 15,
        ;
        7 + (n_in + n_out) * jack_size + 9 + (4 + n_out) + 9 + (4 + n_in)
    }

    /// Lists the descriptors of the configuration in the order in which
    /// they are to be written.
    ///
    /// From the header of the MIDI streaming block on they take as many
    /// bytes as that header announces.
    pub fn configuration_descriptors(&self) -> (r: Vec<Descriptor>)
        ensures
            views(r@) == layout(self.n_in(), self.n_out()),
            r@.len() == 8 + 2 * (self.n_in() + self.n_out()),
            total_len(views(r@).subrange(STREAMING_HEADER_INDEX as int, r@.len() as int))
                == streaming_length(self.n_in(), self.n_out()),
    {
        proof {
            use_type_invariant(self);
            lemma_streaming_length(self.n_in(), self.n_out());
        }
        let ghost n_in = self.n_in();
        let ghost n_out = self.n_out();
        let total = self.streaming_total_length();
        let mut plan: Vec<Descriptor> = Vec::new();

        // AUDIO CONTROL STANDARD
        plan.push(
            Descriptor {
                kind: DescriptorKind::AudioControlInterface,
                body: vec![USB_AUDIO_CLASS, USB_AUDIOCONTROL_SUBCLASS, 0],
            },
        );
        // AUDIO CONTROL EXTRA INFO
        plan.push(
            Descriptor {
                kind: DescriptorKind::ClassInterface,
                body: vec![
                    HEADER_SUBTYPE,
                    0x00,
                    0x01,  // REVISION
                    0x09,
                    0x00,  // SIZE of class specific descriptions
                    0x01,  // Number of streaming interfaces
                    0x01,  // MIDIStreaming interface 1 belongs to this AC interface
                ],
            },
        );
        // Streaming Standard
        plan.push(
            Descriptor {
                kind: DescriptorKind::MidiStreamingInterface,
                body: vec![USB_AUDIO_CLASS, USB_MIDISTREAMING_SUBCLASS, 0],
            },
        );
        // Streaming extra info
        assert(total & 0xFF == total % 256 && (total >> 8) & 0xFF == (total / 256) % 256)
            by (bit_vector);
        plan.push(
            Descriptor {
                kind: DescriptorKind::ClassInterface,
                body: vec![
                    MS_HEADER_SUBTYPE,
                    0x00,
                    0x01,  // REVISION
                    (total & 0xFF) as u8,
                    ((total >> 8) & 0xFF) as u8,
                ],
            },
        );
        assert(views(plan@) =~= layout_head(n_in, n_out)) by {
            assert(plan@[0].body@ =~= layout_head(n_in, n_out)[0].1);
            assert(plan@[1].body@ =~= layout_head(n_in, n_out)[1].1);
            assert(plan@[2].body@ =~= layout_head(n_in, n_out)[2].1);
            assert(plan@[3].body@ =~= layout_head(n_in, n_out)[3].1);
        }

        // JACKS
        let ghost head = layout_head(n_in, n_out);
        let mut i: u8 = 0;
        while i < self.n_in_jacks
            invariant
                i <= self.n_in_jacks,
                self.wf(),
                n_in == self.n_in(),
                views(plan@) == head + Seq::new(i as nat, |k: int| in_ext_jack(k as nat)),
            decreases self.n_in_jacks - i,
        {
            let jack = Descriptor {
                kind: DescriptorKind::ClassInterface,
                body: vec![MIDI_IN_JACK_SUBTYPE, EXTERNAL, self.in_jack_id_ext(i), 0x00],
            };
            assert(jack@.1 =~= in_ext_jack(i as nat).1);
            proof {
                lemma_views_push(plan@, jack);
            }
            plan.push(jack);
            i += 1;
            assert(views(plan@) =~= head + Seq::new(i as nat, |k: int| in_ext_jack(k as nat)));
        }
        let ghost part_a = head + Seq::new(n_in, |k: int| in_ext_jack(k as nat));

        let mut i: u8 = 0;
        while i < self.n_out_jacks
            invariant
                i <= self.n_out_jacks,
                self.wf(),
                n_in == self.n_in(),
                views(plan@) == part_a + Seq::new(i as nat, |k: int| in_emb_jack(n_in, k as nat)),
            decreases self.n_out_jacks - i,
        {
            let jack = Descriptor {
                kind: DescriptorKind::ClassInterface,
                body: vec![MIDI_IN_JACK_SUBTYPE, EMBEDDED, self.in_jack_id_emb(i), 0x00],
            };
            assert(jack@.1 =~= in_emb_jack(n_in, i as nat).1);
            proof {
                lemma_views_push(plan@, jack);
            }
            plan.push(jack);
            i += 1;
            assert(views(plan@) =~= part_a + Seq::new(
                i as nat,
                |k: int| in_emb_jack(n_in, k as nat),
            ));
        }
        let ghost part_b = part_a + Seq::new(n_out, |k: int| in_emb_jack(n_in, k as nat));

        let mut i: u8 = 0;
        while i < self.n_out_jacks
            invariant
                i <= self.n_out_jacks,
                self.wf(),
                n_in == self.n_in(),
                views(plan@) == part_b + Seq::new(i as nat, |k: int| out_ext_jack(n_in, k as nat)),
            decreases self.n_out_jacks - i,
        {
            let jack = Descriptor {
                kind: DescriptorKind::ClassInterface,
                body: vec![
                    MIDI_OUT_JACK_SUBTYPE,
                    EXTERNAL,
                    self.out_jack_id_ext(i),  // id
                    0x01,  // 1 pin
                    self.in_jack_id_emb(i),  // pin is connected to this entity...
                    0x01,  // ...to the first pin
                    0x00,
                ],
            };
            assert(jack@.1 =~= out_ext_jack(n_in, i as nat).1);
            proof {
                lemma_views_push(plan@, jack);
            }
            plan.push(jack);
            i += 1;
            assert(views(plan@) =~= part_b + Seq::new(
                i as nat,
                |k: int| out_ext_jack(n_in, k as nat),
            ));
        }
        let ghost part_c = part_b + Seq::new(n_out, |k: int| out_ext_jack(n_in, k as nat));

        let mut i: u8 = 0;
        while i < self.n_in_jacks
            invariant
                i <= self.n_in_jacks,
                self.wf(),
                n_in == self.n_in(),
                views(plan@) == part_c + Seq::new(i as nat, |k: int| out_emb_jack(k as nat)),
            decreases self.n_in_jacks - i,
        {
            let jack = Descriptor {
                kind: DescriptorKind::ClassInterface,
                body: vec![
                    MIDI_OUT_JACK_SUBTYPE,
                    EMBEDDED,
                    self.out_jack_id_emb(i),  // id
                    0x01,  // 1 pin
                    self.in_jack_id_ext(i),  // pin is connected to this entity...
                    0x01,  // ...to the first pin
                    0x00,
                ],
            };
            assert(jack@.1 =~= out_emb_jack(i as nat).1);
            proof {
                lemma_views_push(plan@, jack);
            }
            plan.push(jack);
            i += 1;
            assert(views(plan@) =~= part_c + Seq::new(i as nat, |k: int| out_emb_jack(k as nat)));
        }
        let ghost part_d = part_c + Seq::new(n_in, |k: int| out_emb_jack(k as nat));
        assert(part_d =~= head + layout_jacks(n_in, n_out));

        // ENDPOINTS
        plan.push(Descriptor { kind: DescriptorKind::BulkOutEndpoint, body: vec![0, 0] });

        let mut endpoint_data: Vec<u8> = vec![MS_GENERAL, self.n_out_jacks];
        let mut i: u8 = 0;
        while i < self.n_out_jacks
            invariant
                i <= self.n_out_jacks,
                self.wf(),
                n_in == self.n_in(),
                endpoint_data@ == seq![MS_GENERAL, self.n_out_jacks] + Seq::new(
                    i as nat,
                    |k: int| in_emb_id(n_in, k as nat) as u8,
                ),
            decreases self.n_out_jacks - i,
        {
            endpoint_data.push(self.in_jack_id_emb(i));
            i += 1;
            assert(endpoint_data@ =~= seq![MS_GENERAL, self.n_out_jacks] + Seq::new(
                i as nat,
                |k: int| in_emb_id(n_in, k as nat) as u8,
            ));
        }
        plan.push(Descriptor { kind: DescriptorKind::ClassEndpoint, body: endpoint_data });

        plan.push(Descriptor { kind: DescriptorKind::BulkInEndpoint, body: vec![0, 0] });

        let mut endpoint_data: Vec<u8> = vec![MS_GENERAL, self.n_in_jacks];
        let mut i: u8 = 0;
        while i < self.n_in_jacks
            invariant
                i <= self.n_in_jacks,
                self.wf(),
                n_in == self.n_in(),
                endpoint_data@ == seq![MS_GENERAL, self.n_in_jacks] + Seq::new(
                    i as nat,
                    |k: int| out_emb_id(k as nat) as u8,
                ),
            decreases self.n_in_jacks - i,
        {
            endpoint_data.push(self.out_jack_id_emb(i));
            i += 1;
            assert(endpoint_data@ =~= seq![MS_GENERAL, self.n_in_jacks] + Seq::new(
                i as nat,
                |k: int| out_emb_id(k as nat) as u8,
            ));
        }
        plan.push(Descriptor { kind: DescriptorKind::ClassEndpoint, body: endpoint_data });

        assert(views(plan@) =~= layout(n_in, n_out)) by {
            let n = part_d.len() as int;
            assert(plan@[n].body@ =~= layout_endpoints(n_in, n_out)[0].1);
            assert(plan@[n + 2].body@ =~= layout_endpoints(n_in, n_out)[2].1);
        }
        plan
    }
}

} // verus!
