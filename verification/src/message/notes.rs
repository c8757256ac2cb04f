//! Enum representing the MIDI notes.

use crate::message::data::u7::U7;
use vstd::prelude::*;

verus! {

/// A simple enum type that represents all the MIDI notes.
///
/// The variants run from `C1m`, which is C of the octave -1 and 0 on the wire,
/// to `G9`, which is 127. The flat names are associated constants and can be
/// referenced like `Note::Bb3`.
#[allow(missing_docs)]
#[derive(Debug, Clone, Copy, PartialEq, Eq, Hash, Structural)]
pub enum Note {
    C1m, Cs1m, D1m, Ds1m, E1m, F1m, Fs1m, G1m, Gs1m, A1m, As1m, B1m,
    C0, Cs0, D0, Ds0, E0, F0, Fs0, G0, Gs0, A0, As0, B0,
    C1, Cs1, D1, Ds1, E1, F1, Fs1, G1, Gs1, A1, As1, B1,
    C2, Cs2, D2, Ds2, E2, F2, Fs2, G2, Gs2, A2, As2, B2,
    C3, Cs3, D3, Ds3, E3, F3, Fs3, G3, Gs3, A3, As3, B3,
    C4, Cs4, D4, Ds4, E4, F4, Fs4, G4, Gs4, A4, As4, B4,
    C5, Cs5, D5, Ds5, E5, F5, Fs5, G5, Gs5, A5, As5, B5,
    C6, Cs6, D6, Ds6, E6, F6, Fs6, G6, Gs6, A6, As6, B6,
    C7, Cs7, D7, Ds7, E7, F7, Fs7, G7, Gs7, A7, As7, B7,
    C8, Cs8, D8, Ds8, E8, F8, Fs8, G8, Gs8, A8, As8, B8,
    C9, Cs9, D9, Ds9, E9, F9, Fs9, G9,
}

/// Error representing that this value is not a valid note
#[derive(Debug, Clone, Copy, PartialEq, Eq, Structural)]
pub struct InvalidNote(pub u8);

impl View for Note {
    type V = u8;

    /// The note's number on the wire, from 0 to 127.
    open spec fn view(&self) -> u8 {
        match self {
            Note::C1m => 0,
            Note::Cs1m => 1,
            Note::D1m => 2,
            Note::Ds1m => 3,
            Note::E1m => 4,
            Note::F1m => 5,
            Note::Fs1m => 6,
            Note::G1m => 7,
            Note::Gs1m => 8,
            Note::A1m => 9,
            Note::As1m => 10,
            Note::B1m => 11,
            Note::C0 => 12,
            Note::Cs0 => 13,
            Note::D0 => 14,
            Note::Ds0 => 15,
            Note::E0 => 16,
            Note::F0 => 17,
            Note::Fs0 => 18,
            Note::G0 => 19,
            Note::Gs0 => 20,
            Note::A0 => 21,
            Note::As0 => 22,
            Note::B0 => 23,
            Note::C1 => 24,
            Note::Cs1 => 25,
            Note::D1 => 26,
            Note::Ds1 => 27,
            Note::E1 => 28,
            Note::F1 => 29,
            Note::Fs1 => 30,
            Note::G1 => 31,
            Note::Gs1 => 32,
            Note::A1 => 33,
            Note::As1 => 34,
            Note::B1 => 35,
            Note::C2 => 36,
            Note::Cs2 => 37,
            Note::D2 => 38,
            Note::Ds2 => 39,
            Note::E2 => 40,
            Note::F2 => 41,
            Note::Fs2 => 42,
            Note::G2 => 43,
            Note::Gs2 => 44,
            Note::A2 => 45,
            Note::As2 => 46,
            Note::B2 => 47,
            Note::C3 => 48,
            Note::Cs3 => 49,
            Note::D3 => 50,
            Note::Ds3 => 51,
            Note::E3 => 52,
            Note::F3 => 53,
            Note::Fs3 => 54,
            Note::G3 => 55,
            Note::Gs3 => 56,
            Note::A3 => 57,
            Note::As3 => 58,
            Note::B3 => 59,
            Note::C4 => 60,
            Note::Cs4 => 61,
            Note::D4 => 62,
            Note::Ds4 => 63,
            Note::E4 => 64,
            Note::F4 => 65,
            Note::Fs4 => 66,
            Note::G4 => 67,
            Note::Gs4 => 68,
            Note::A4 => 69,
            Note::As4 => 70,
            Note::B4 => 71,
            Note::C5 => 72,
            Note::Cs5 => 73,
            Note::D5 => 74,
            Note::Ds5 => 75,
            Note::E5 => 76,
            Note::F5 => 77,
            Note::Fs5 => 78,
            Note::G5 => 79,
            Note::Gs5 => 80,
            Note::A5 => 81,
            Note::As5 => 82,
            Note::B5 => 83,
            Note::C6 => 84,
            Note::Cs6 => 85,
            Note::D6 => 86,
            Note::Ds6 => 87,
            Note::E6 => 88,
            Note::F6 => 89,
            Note::Fs6 => 90,
            Note::G6 => 91,
            Note::Gs6 => 92,
            Note::A6 => 93,
            Note::As6 => 94,
            Note::B6 => 95,
            Note::C7 => 96,
            Note::Cs7 => 97,
            Note::D7 => 98,
            Note::Ds7 => 99,
            Note::E7 => 100,
            Note::F7 => 101,
            Note::Fs7 => 102,
            Note::G7 => 103,
            Note::Gs7 => 104,
            Note::A7 => 105,
            Note::As7 => 106,
            Note::B7 => 107,
            Note::C8 => 108,
            Note::Cs8 => 109,
            Note::D8 => 110,
            Note::Ds8 => 111,
            Note::E8 => 112,
            Note::F8 => 113,
            Note::Fs8 => 114,
            Note::G8 => 115,
            Note::Gs8 => 116,
            Note::A8 => 117,
            Note::As8 => 118,
            Note::B8 => 119,
            Note::C9 => 120,
            Note::Cs9 => 121,
            Note::D9 => 122,
            Note::Ds9 => 123,
            Note::E9 => 124,
            Note::F9 => 125,
            Note::Fs9 => 126,
            Note::G9 => 127,
        }
    }
}

#[allow(missing_docs)]
#[allow(non_upper_case_globals)]
impl Note {
    pub const Db1m: Note = Note::Cs1m;
    pub const Eb1m: Note = Note::Ds1m;
    pub const Gb1m: Note = Note::Fs1m;
    pub const Ab1m: Note = Note::Gs1m;
    pub const Bb1m: Note = Note::As1m;
    pub const Db0: Note = Note::Cs0;
    pub const Eb0: Note = Note::Ds0;
    pub const Gb0: Note = Note::Fs0;
    pub const Ab0: Note = Note::Gs0;
    pub const Bb0: Note = Note::As0;
    pub const Db1: Note = Note::Cs1;
    pub const Eb1: Note = Note::Ds1;
    pub const Gb1: Note = Note::Fs1;
    pub const Ab1: Note = Note::Gs1;
    pub const Bb1: Note = Note::As1;
    pub const Db2: Note = Note::Cs2;
    pub const Eb2: Note = Note::Ds2;
    pub const Gb2: Note = Note::Fs2;
    pub const Ab2: Note = Note::Gs2;
    pub const Bb2: Note = Note::As2;
    pub const Db3: Note = Note::Cs3;
    pub const Eb3: Note = Note::Ds3;
    pub const Gb3: Note = Note::Fs3;
    pub const Ab3: Note = Note::Gs3;
    pub const Bb3: Note = Note::As3;
    pub const Db4: Note = Note::Cs4;
    pub const Eb4: Note = Note::Ds4;
    pub const Gb4: Note = Note::Fs4;
    pub const Ab4: Note = Note::Gs4;
    pub const Bb4: Note = Note::As4;
    pub const Db5: Note = Note::Cs5;
    pub const Eb5: Note = Note::Ds5;
    pub const Gb5: Note = Note::Fs5;
    pub const Ab5: Note = Note::Gs5;
    pub const Bb5: Note = Note::As5;
    pub const Db6: Note = Note::Cs6;
    pub const Eb6: Note = Note::Ds6;
    pub const Gb6: Note = Note::Fs6;
    pub const Ab6: Note = Note::Gs6;
    pub const Bb6: Note = Note::As6;
    pub const Db7: Note = Note::Cs7;
    pub const Eb7: Note = Note::Ds7;
    pub const Gb7: Note = Note::Fs7;
    pub const Ab7: Note = Note::Gs7;
    pub const Bb7: Note = Note::As7;
    pub const Db8: Note = Note::Cs8;
    pub const Eb8: Note = Note::Ds8;
    pub const Gb8: Note = Note::Fs8;
    pub const Ab8: Note = Note::Gs8;
    pub const Bb8: Note = Note::As8;
    pub const Db9: Note = Note::Cs9;
    pub const Eb9: Note = Note::Ds9;
    pub const Gb9: Note = Note::Fs9;

    /// The note whose wire number is `value`, if there is one.
    pub open spec fn from_wire(value: u8) -> Option<Note> {
        match value {
            0 => Some(Note::C1m),
            1 => Some(Note::Cs1m),
            2 => Some(Note::D1m),
            3 => Some(Note::Ds1m),
            4 => Some(Note::E1m),
            5 => Some(Note::F1m),
            6 => Some(Note::Fs1m),
            7 => Some(Note::G1m),
            8 => Some(Note::Gs1m),
            9 => Some(Note::A1m),
            10 => Some(Note::As1m),
            11 => Some(Note::B1m),
            12 => Some(Note::C0),
            13 => Some(Note::Cs0),
            14 => Some(Note::D0),
            15 => Some(Note::Ds0),
            16 => Some(Note::E0),
            17 => Some(Note::F0),
            18 => Some(Note::Fs0),
            19 => Some(Note::G0),
            20 => Some(Note::Gs0),
            21 => Some(Note::A0),
            22 => Some(Note::As0),
            23 => Some(Note::B0),
            24 => Some(Note::C1),
            25 => Some(Note::Cs1),
            26 => Some(Note::D1),
            27 => Some(Note::Ds1),
            28 => Some(Note::E1),
            29 => Some(Note::F1),
            30 => Some(Note::Fs1),
            31 => Some(Note::G1),
            32 => Some(Note::Gs1),
            33 => Some(Note::A1),
            34 => Some(Note::As1),
            35 => Some(Note::B1),
            36 => Some(Note::C2),
            37 => Some(Note::Cs2),
            38 => Some(Note::D2),
            39 => Some(Note::Ds2),
            40 => Some(Note::E2),
            41 => Some(Note::F2),
            42 => Some(Note::Fs2),
            43 => Some(Note::G2),
            44 => Some(Note::Gs2),
            45 => Some(Note::A2),
            46 => Some(Note::As2),
            47 => Some(Note::B2),
            48 => Some(Note::C3),
            49 => Some(Note::Cs3),
            50 => Some(Note::D3),
            51 => Some(Note::Ds3),
            52 => Some(Note::E3),
            53 => Some(Note::F3),
            54 => Some(Note::Fs3),
            55 => Some(Note::G3),
            56 => Some(Note::Gs3),
            57 => Some(Note::A3),
            58 => Some(Note::As3),
            59 => Some(Note::B3),
            60 => Some(Note::C4),
            61 => Some(Note::Cs4),
            62 => Some(Note::D4),
            63 => Some(Note::Ds4),
            64 => Some(Note::E4),
            65 => Some(Note::F4),
            66 => Some(Note::Fs4),
            67 => Some(Note::G4),
            68 => Some(Note::Gs4),
            69 => Some(Note::A4),
            70 => Some(Note::As4),
            71 => Some(Note::B4),
            72 => Some(Note::C5),
            73 => Some(Note::Cs5),
            74 => Some(Note::D5),
            75 => Some(Note::Ds5),
            76 => Some(Note::E5),
            77 => Some(Note::F5),
            78 => Some(Note::Fs5),
            79 => Some(Note::G5),
            80 => Some(Note::Gs5),
            81 => Some(Note::A5),
            82 => Some(Note::As5),
            83 => Some(Note::B5),
            84 => Some(Note::C6),
            85 => Some(Note::Cs6),
            86 => Some(Note::D6),
            87 => Some(Note::Ds6),
            88 => Some(Note::E6),
            89 => Some(Note::F6),
            90 => Some(Note::Fs6),
            91 => Some(Note::G6),
            92 => Some(Note::Gs6),
            93 => Some(Note::A6),
            94 => Some(Note::As6),
            95 => Some(Note::B6),
            96 => Some(Note::C7),
            97 => Some(Note::Cs7),
            98 => Some(Note::D7),
            99 => Some(Note::Ds7),
            100 => Some(Note::E7),
            101 => Some(Note::F7),
            102 => Some(Note::Fs7),
            103 => Some(Note::G7),
            104 => Some(Note::Gs7),
            105 => Some(Note::A7),
            106 => Some(Note::As7),
            107 => Some(Note::B7),
            108 => Some(Note::C8),
            109 => Some(Note::Cs8),
            110 => Some(Note::D8),
            111 => Some(Note::Ds8),
            112 => Some(Note::E8),
            113 => Some(Note::F8),
            114 => Some(Note::Fs8),
            115 => Some(Note::G8),
            116 => Some(Note::Gs8),
            117 => Some(Note::A8),
            118 => Some(Note::As8),
            119 => Some(Note::B8),
            120 => Some(Note::C9),
            121 => Some(Note::Cs9),
            122 => Some(Note::D9),
            123 => Some(Note::Ds9),
            124 => Some(Note::E9),
            125 => Some(Note::F9),
            126 => Some(Note::Fs9),
            127 => Some(Note::G9),
            _ => None,
        }
    }

    /// The notes stand one to one for the numbers 0 to 127.
    pub proof fn lemma_wire(self, value: u8)
        ensures
            self@ <= 127,
            Note::from_wire(self@) == Some(self),
            Note::from_wire(value) is Some <==> value <= 127,
            Note::from_wire(value) matches Some(n) ==> n@ == value,
    {
    }
}

impl TryFrom<u8> for Note {
    type Error = InvalidNote;

    /// The note with the wire number `value`; fails above 127.
    fn try_from(value: u8) -> (r: Result<Self, Self::Error>)
        ensures
            value <= 127 ==> r is Ok && r->Ok_0@ == value,
            value > 127 ==> r == Err::<Note, InvalidNote>(InvalidNote(value)),
    {
        match value {
            0 => Ok(Note::C1m),
            1 => Ok(Note::Cs1m),
            2 => Ok(Note::D1m),
            3 => Ok(Note::Ds1m),
            4 => Ok(Note::E1m),
            5 => Ok(Note::F1m),
            6 => Ok(Note::Fs1m),
            7 => Ok(Note::G1m),
            8 => Ok(Note::Gs1m),
            9 => Ok(Note::A1m),
            10 => Ok(Note::As1m),
            11 => Ok(Note::B1m),
            12 => Ok(Note::C0),
            13 => Ok(Note::Cs0),
            14 => Ok(Note::D0),
            15 => Ok(Note::Ds0),
            16 => Ok(Note::E0),
            17 => Ok(Note::F0),
            18 => Ok(Note::Fs0),
            19 => Ok(Note::G0),
            20 => Ok(Note::Gs0),
            21 => Ok(Note::A0),
            22 => Ok(Note::As0),
            23 => Ok(Note::B0),
            24 => Ok(Note::C1),
            25 => Ok(Note::Cs1),
            26 => Ok(Note::D1),
            27 => Ok(Note::Ds1),
            28 => Ok(Note::E1),
            29 => Ok(Note::F1),
            30 => Ok(Note::Fs1),
            31 => Ok(Note::G1),
            32 => Ok(Note::Gs1),
            33 => Ok(Note::A1),
            34 => Ok(Note::As1),
            35 => Ok(Note::B1),
            36 => Ok(Note::C2),
            37 => Ok(Note::Cs2),
            38 => Ok(Note::D2),
            39 => Ok(Note::Ds2),
            40 => Ok(Note::E2),
            41 => Ok(Note::F2),
            42 => Ok(Note::Fs2),
            43 => Ok(Note::G2),
            44 => Ok(Note::Gs2),
            45 => Ok(Note::A2),
            46 => Ok(Note::As2),
            47 => Ok(Note::B2),
            48 => Ok(Note::C3),
            49 => Ok(Note::Cs3),
            50 => Ok(Note::D3),
            51 => Ok(Note::Ds3),
            52 => Ok(Note::E3),
            53 => Ok(Note::F3),
            54 => Ok(Note::Fs3),
            55 => Ok(Note::G3),
            56 => Ok(Note::Gs3),
            57 => Ok(Note::A3),
            58 => Ok(Note::As3),
            59 => Ok(Note::B3),
            60 => Ok(Note::C4),
            61 => Ok(Note::Cs4),
            62 => Ok(Note::D4),
            63 => Ok(Note::Ds4),
            64 => Ok(Note::E4),
            65 => Ok(Note::F4),
            66 => Ok(Note::Fs4),
            67 => Ok(Note::G4),
            68 => Ok(Note::Gs4),
            69 => Ok(Note::A4),
            70 => Ok(Note::As4),
            71 => Ok(Note::B4),
            72 => Ok(Note::C5),
            73 => Ok(Note::Cs5),
            74 => Ok(Note::D5),
            75 => Ok(Note::Ds5),
            76 => Ok(Note::E5),
            77 => Ok(Note::F5),
            78 => Ok(Note::Fs5),
            79 => Ok(Note::G5),
            80 => Ok(Note::Gs5),
            81 => Ok(Note::A5),
            82 => Ok(Note::As5),
            83 => Ok(Note::B5),
            84 => Ok(Note::C6),
            85 => Ok(Note::Cs6),
            86 => Ok(Note::D6),
            87 => Ok(Note::Ds6),
            88 => Ok(Note::E6),
            89 => Ok(Note::F6),
            90 => Ok(Note::Fs6),
            91 => Ok(Note::G6),
            92 => Ok(Note::Gs6),
            93 => Ok(Note::A6),
            94 => Ok(Note::As6),
            95 => Ok(Note::B6),
            96 => Ok(Note::C7),
            97 => Ok(Note::Cs7),
            98 => Ok(Note::D7),
            99 => Ok(Note::Ds7),
            100 => Ok(Note::E7),
            101 => Ok(Note::F7),
            102 => Ok(Note::Fs7),
            103 => Ok(Note::G7),
            104 => Ok(Note::Gs7),
            105 => Ok(Note::A7),
            106 => Ok(Note::As7),
            107 => Ok(Note::B7),
            108 => Ok(Note::C8),
            109 => Ok(Note::Cs8),
            110 => Ok(Note::D8),
            111 => Ok(Note::Ds8),
            112 => Ok(Note::E8),
            113 => Ok(Note::F8),
            114 => Ok(Note::Fs8),
            115 => Ok(Note::G8),
            116 => Ok(Note::Gs8),
            117 => Ok(Note::A8),
            118 => Ok(Note::As8),
            119 => Ok(Note::B8),
            120 => Ok(Note::C9),
            121 => Ok(Note::Cs9),
            122 => Ok(Note::D9),
            123 => Ok(Note::Ds9),
            124 => Ok(Note::E9),
            125 => Ok(Note::F9),
            126 => Ok(Note::Fs9),
            127 => Ok(Note::G9),
            _ => Err(InvalidNote(value)),
        }
    }
}

impl vstd::std_specs::convert::TryFromSpecImpl<u8> for Note {
    open spec fn obeys_try_from_spec() -> bool {
        true
    }

    open spec fn try_from_spec(value: u8) -> Result<Self, Self::Error> {
        match Note::from_wire(value) {
            Some(note) => Ok(note),
            None => Err(InvalidNote(value)),
        }
    }
}

impl From<Note> for u8 {
    /// The note's number on the wire.
    fn from(value: Note) -> (r: u8)
        ensures
            r == value@,
            r <= 127,
    {
        match value {
            Note::C1m => 0,
            Note::Cs1m => 1,
            Note::D1m => 2,
            Note::Ds1m => 3,
            Note::E1m => 4,
            Note::F1m => 5,
            Note::Fs1m => 6,
            Note::G1m => 7,
            Note::Gs1m => 8,
            Note::A1m => 9,
            Note::As1m => 10,
            Note::B1m => 11,
            Note::C0 => 12,
            Note::Cs0 => 13,
            Note::D0 => 14,
            Note::Ds0 => 15,
            Note::E0 => 16,
            Note::F0 => 17,
            Note::Fs0 => 18,
            Note::G0 => 19,
            Note::Gs0 => 20,
            Note::A0 => 21,
            Note::As0 => 22,
            Note::B0 => 23,
            Note::C1 => 24,
            Note::Cs1 => 25,
            Note::D1 => 26,
            Note::Ds1 => 27,
            Note::E1 => 28,
            Note::F1 => 29,
            Note::Fs1 => 30,
            Note::G1 => 31,
            Note::Gs1 => 32,
            Note::A1 => 33,
            Note::As1 => 34,
            Note::B1 => 35,
            Note::C2 => 36,
            Note::Cs2 => 37,
            Note::D2 => 38,
            Note::Ds2 => 39,
            Note::E2 => 40,
            Note::F2 => 41,
            Note::Fs2 => 42,
            Note::G2 => 43,
            Note::Gs2 => 44,
            Note::A2 => 45,
            Note::As2 => 46,
            Note::B2 => 47,
            Note::C3 => 48,
            Note::Cs3 => 49,
            Note::D3 => 50,
            Note::Ds3 => 51,
            Note::E3 => 52,
            Note::F3 => 53,
            Note::Fs3 => 54,
            Note::G3 => 55,
            Note::Gs3 => 56,
            Note::A3 => 57,
            Note::As3 => 58,
            Note::B3 => 59,
            Note::C4 => 60,
            Note::Cs4 => 61,
            Note::D4 => 62,
            Note::Ds4 => 63,
            Note::E4 => 64,
            Note::F4 => 65,
            Note::Fs4 => 66,
            Note::G4 => 67,
            Note::Gs4 => 68,
            Note::A4 => 69,
            Note::As4 => 70,
            Note::B4 => 71,
            Note::C5 => 72,
            Note::Cs5 => 73,
            Note::D5 => 74,
            Note::Ds5 => 75,
            Note::E5 => 76,
            Note::F5 => 77,
            Note::Fs5 => 78,
            Note::G5 => 79,
            Note::Gs5 => 80,
            Note::A5 => 81,
            Note::As5 => 82,
            Note::B5 => 83,
            Note::C6 => 84,
            Note::Cs6 => 85,
            Note::D6 => 86,
            Note::Ds6 => 87,
            Note::E6 => 88,
            Note::F6 => 89,
            Note::Fs6 => 90,
            Note::G6 => 91,
            Note::Gs6 => 92,
            Note::A6 => 93,
            Note::As6 => 94,
            Note::B6 => 95,
            Note::C7 => 96,
            Note::Cs7 => 97,
            Note::D7 => 98,
            Note::Ds7 => 99,
            Note::E7 => 100,
            Note::F7 => 101,
            Note::Fs7 => 102,
            Note::G7 => 103,
            Note::Gs7 => 104,
            Note::A7 => 105,
            Note::As7 => 106,
            Note::B7 => 107,
            Note::C8 => 108,
            Note::Cs8 => 109,
            Note::D8 => 110,
            Note::Ds8 => 111,
            Note::E8 => 112,
            Note::F8 => 113,
            Note::Fs8 => 114,
            Note::G8 => 115,
            Note::Gs8 => 116,
            Note::A8 => 117,
            Note::As8 => 118,
            Note::B8 => 119,
            Note::C9 => 120,
            Note::Cs9 => 121,
            Note::D9 => 122,
            Note::Ds9 => 123,
            Note::E9 => 124,
            Note::F9 => 125,
            Note::Fs9 => 126,
            Note::G9 => 127,
        }
    }
}

impl vstd::std_specs::convert::FromSpecImpl<Note> for u8 {
    open spec fn obeys_from_spec() -> bool {
        true
    }

    open spec fn from_spec(value: Note) -> u8 {
        value@
    }
}

impl From<Note> for U7 {
    /// The note's number as a 7-bit value.
    fn from(value: Note) -> (r: U7)
        ensures
            r@ == value@,
    {
        let byte: u8 = u8::from(value);
        U7(byte)
    }
}

impl vstd::std_specs::convert::FromSpecImpl<Note> for U7 {
    open spec fn obeys_from_spec() -> bool {
        true
    }

    open spec fn from_spec(value: Note) -> U7 {
        U7::new_spec(value@)
    }
}

} // verus!
