//! The equal-tempered scale from C0 to B8, each note bound to a whole number of hertz.

use vstd::prelude::*;

verus! {

/// Pitch for standard scale: every note of octaves 0 to 8, in rising order.
#[derive(Clone, Copy, Debug, PartialEq, Eq, Structural)]
pub enum NamedPitch {
    C0,
    CS0,
    D0,
    DS0,
    E0,
    F0,
    FS0,
    G0,
    GS0,
    A0,
    AS0,
    B0,
    C1,
    CS1,
    D1,
    DS1,
    E1,
    F1,
    FS1,
    G1,
    GS1,
    A1,
    AS1,
    B1,
    C2,
    CS2,
    D2,
    DS2,
    E2,
    F2,
    FS2,
    G2,
    GS2,
    A2,
    AS2,
    B2,
    C3,
    CS3,
    D3,
    DS3,
    E3,
    F3,
    FS3,
    G3,
    GS3,
    A3,
    AS3,
    B3,
    C4,
    CS4,
    D4,
    DS4,
    E4,
    F4,
    FS4,
    G4,
    GS4,
    A4,
    AS4,
    B4,
    C5,
    CS5,
    D5,
    DS5,
    E5,
    F5,
    FS5,
    G5,
    GS5,
    A5,
    AS5,
    B5,
    C6,
    CS6,
    D6,
    DS6,
    E6,
    F6,
    FS6,
    G6,
    GS6,
    A6,
    AS6,
    B6,
    C7,
    CS7,
    D7,
    DS7,
    E7,
    F7,
    FS7,
    G7,
    GS7,
    A7,
    AS7,
    B7,
    C8,
    CS8,
    D8,
    DS8,
    E8,
    F8,
    FS8,
    G8,
    GS8,
    A8,
    AS8,
    B8,
}

/// Number of notes in the scale.
pub const SCALE_LEN: usize = 108;

/// Frequency in hertz of the note at position `i` of the scale (C0 is at 0).
pub open spec fn scale_hz(i: int) -> nat {
    if i <= 0 { 16 }
    else if i == 1 { 17 }
    else if i == 2 { 18 }
    else if i == 3 { 19 }
    else if i == 4 { 20 }
    else if i == 5 { 21 }
    else if i == 6 { 23 }
    else if i == 7 { 24 }
    else if i == 8 { 25 }
    else if i == 9 { 27 }
    else if i == 10 { 29 }
    else if i == 11 { 30 }
    else if i == 12 { 32 }
    else if i == 13 { 34 }
    else if i == 14 { 36 }
    else if i == 15 { 38 }
    else if i == 16 { 41 }
    else if i == 17 { 43 }
    else if i == 18 { 46 }
    else if i == 19 { 49 }
    else if i == 20 { 51 }
    else if i == 21 { 55 }
    else if i == 22 { 58 }
    else if i == 23 { 61 }
    else if i == 24 { 65 }
    else if i == 25 { 69 }
    else if i == 26 { 73 }
    else if i == 27 { 77 }
    else if i == 28 { 82 }
    else if i == 29 { 87 }
    else if i == 30 { 92 }
    else if i == 31 { 98 }
    else if i == 32 { 103 }
    else if i == 33 { 110 }
    else if i == 34 { 116 }
    else if i == 35 { 123 }
    else if i == 36 { 130 }
    else if i == 37 { 138 }
    else if i == 38 { 146 }
    else if i == 39 { 155 }
    else if i == 40 { 164 }
    else if i == 41 { 174 }
    else if i == 42 { 185 }
    else if i == 43 { 196 }
    else if i == 44 { 207 }
    else if i == 45 { 220 }
    else if i == 46 { 233 }
    else if i == 47 { 246 }
    else if i == 48 { 261 }
    else if i == 49 { 277 }
    else if i == 50 { 293 }
    else if i == 51 { 311 }
    else if i == 52 { 329 }
    else if i == 53 { 349 }
    else if i == 54 { 369 }
    else if i == 55 { 392 }
    else if i == 56 { 415 }
    else if i == 57 { 440 }
    else if i == 58 { 466 }
    else if i == 59 { 493 }
    else if i == 60 { 523 }
    else if i == 61 { 554 }
    else if i == 62 { 587 }
    else if i == 63 { 622 }
    else if i == 64 { 659 }
    else if i == 65 { 698 }
    else if i == 66 { 739 }
    else if i == 67 { 783 }
    else if i == 68 { 830 }
    else if i == 69 { 880 }
    else if i == 70 { 932 }
    else if i == 71 { 987 }
    else if i == 72 { 1046 }
    else if i == 73 { 1108 }
    else if i == 74 { 1174 }
    else if i == 75 { 1244 }
    else if i == 76 { 1318 }
    else if i == 77 { 1396 }
    else if i == 78 { 1479 }
    else if i == 79 { 1567 }
    else if i == 80 { 1661 }
    else if i == 81 { 1760 }
    else if i == 82 { 1864 }
    else if i == 83 { 1975 }
    else if i == 84 { 2093 }
    else if i == 85 { 2217 }
    else if i == 86 { 2349 }
    else if i == 87 { 2489 }
    else if i == 88 { 2637 }
    else if i == 89 { 2793 }
    else if i == 90 { 2959 }
    else if i == 91 { 3135 }
    else if i == 92 { 3322 }
    else if i == 93 { 3520 }
    else if i == 94 { 3729 }
    else if i == 95 { 3951 }
    else if i == 96 { 4186 }
    else if i == 97 { 4434 }
    else if i == 98 { 4698 }
    else if i == 99 { 4978 }
    else if i == 100 { 5274 }
    else if i == 101 { 5587 }
    else if i == 102 { 5919 }
    else if i == 103 { 6271 }
    else if i == 104 { 6644 }
    else if i == 105 { 7040 }
    else if i == 106 { 7458 }
    else if i == 107 { 7902 }
    else { 0 }
}

impl NamedPitch {
    /// Position of the note in the scale, counted from C0.
    pub open spec fn index(self) -> nat {
        match self {
            NamedPitch::C0 => 0,
            NamedPitch::CS0 => 1,
            NamedPitch::D0 => 2,
            NamedPitch::DS0 => 3,
            NamedPitch::E0 => 4,
            NamedPitch::F0 => 5,
            NamedPitch::FS0 => 6,
            NamedPitch::G0 => 7,
            NamedPitch::GS0 => 8,
            NamedPitch::A0 => 9,
            NamedPitch::AS0 => 10,
            NamedPitch::B0 => 11,
            NamedPitch::C1 => 12,
            NamedPitch::CS1 => 13,
            NamedPitch::D1 => 14,
            NamedPitch::DS1 => 15,
            NamedPitch::E1 => 16,
            NamedPitch::F1 => 17,
            NamedPitch::FS1 => 18,
            NamedPitch::G1 => 19,
            NamedPitch::GS1 => 20,
            NamedPitch::A1 => 21,
            NamedPitch::AS1 => 22,
            NamedPitch::B1 => 23,
            NamedPitch::C2 => 24,
            NamedPitch::CS2 => 25,
            NamedPitch::D2 => 26,
            NamedPitch::DS2 => 27,
            NamedPitch::E2 => 28,
            NamedPitch::F2 => 29,
            NamedPitch::FS2 => 30,
            NamedPitch::G2 => 31,
            NamedPitch::GS2 => 32,
            NamedPitch::A2 => 33,
            NamedPitch::AS2 => 34,
            NamedPitch::B2 => 35,
            NamedPitch::C3 => 36,
            NamedPitch::CS3 => 37,
            NamedPitch::D3 => 38,
            NamedPitch::DS3 => 39,
            NamedPitch::E3 => 40,
            NamedPitch::F3 => 41,
            NamedPitch::FS3 => 42,
            NamedPitch::G3 => 43,
            NamedPitch::GS3 => 44,
            NamedPitch::A3 => 45,
            NamedPitch::AS3 => 46,
            NamedPitch::B3 => 47,
            NamedPitch::C4 => 48,
            NamedPitch::CS4 => 49,
            NamedPitch::D4 => 50,
            NamedPitch::DS4 => 51,
            NamedPitch::E4 => 52,
            NamedPitch::F4 => 53,
            NamedPitch::FS4 => 54,
            NamedPitch::G4 => 55,
            NamedPitch::GS4 => 56,
            NamedPitch::A4 => 57,
            NamedPitch::AS4 => 58,
            NamedPitch::B4 => 59,
            NamedPitch::C5 => 60,
            NamedPitch::CS5 => 61,
            NamedPitch::D5 => 62,
            NamedPitch::DS5 => 63,
            NamedPitch::E5 => 64,
            NamedPitch::F5 => 65,
            NamedPitch::FS5 => 66,
            NamedPitch::G5 => 67,
            NamedPitch::GS5 => 68,
            NamedPitch::A5 => 69,
            NamedPitch::AS5 => 70,
            NamedPitch::B5 => 71,
            NamedPitch::C6 => 72,
            NamedPitch::CS6 => 73,
            NamedPitch::D6 => 74,
            NamedPitch::DS6 => 75,
            NamedPitch::E6 => 76,
            NamedPitch::F6 => 77,
            NamedPitch::FS6 => 78,
            NamedPitch::G6 => 79,
            NamedPitch::GS6 => 80,
            NamedPitch::A6 => 81,
            NamedPitch::AS6 => 82,
            NamedPitch::B6 => 83,
            NamedPitch::C7 => 84,
            NamedPitch::CS7 => 85,
            NamedPitch::D7 => 86,
            NamedPitch::DS7 => 87,
            NamedPitch::E7 => 88,
            NamedPitch::F7 => 89,
            NamedPitch::FS7 => 90,
            NamedPitch::G7 => 91,
            NamedPitch::GS7 => 92,
            NamedPitch::A7 => 93,
            NamedPitch::AS7 => 94,
            NamedPitch::B7 => 95,
            NamedPitch::C8 => 96,
            NamedPitch::CS8 => 97,
            NamedPitch::D8 => 98,
            NamedPitch::DS8 => 99,
            NamedPitch::E8 => 100,
            NamedPitch::F8 => 101,
            NamedPitch::FS8 => 102,
            NamedPitch::G8 => 103,
            NamedPitch::GS8 => 104,
            NamedPitch::A8 => 105,
            NamedPitch::AS8 => 106,
            NamedPitch::B8 => 107,
        }
    }

    /// The note's fixed frequency in hertz.
    pub open spec fn hz(self) -> nat {
        scale_hz(self.index() as int)
    }

    /// Turn into Hz
    pub fn into_frequency(self) -> (r: u32)
        ensures
            r == self.hz(),
    {
        match self {
            NamedPitch::C0 => 16,
            NamedPitch::CS0 => 17,
            NamedPitch::D0 => 18,
            NamedPitch::DS0 => 19,
            NamedPitch::E0 => 20,
            NamedPitch::F0 => 21,
            NamedPitch::FS0 => 23,
            NamedPitch::G0 => 24,
            NamedPitch::GS0 => 25,
            NamedPitch::A0 => 27,
            NamedPitch::AS0 => 29,
            NamedPitch::B0 => 30,
            NamedPitch::C1 => 32,
            NamedPitch::CS1 => 34,
            NamedPitch::D1 => 36,
            NamedPitch::DS1 => 38,
            NamedPitch::E1 => 41,
            NamedPitch::F1 => 43,
            NamedPitch::FS1 => 46,
            NamedPitch::G1 => 49,
            NamedPitch::GS1 => 51,
            NamedPitch::A1 => 55,
            NamedPitch::AS1 => 58,
            NamedPitch::B1 => 61,
            NamedPitch::C2 => 65,
            NamedPitch::CS2 => 69,
            NamedPitch::D2 => 73,
            NamedPitch::DS2 => 77,
            NamedPitch::E2 => 82,
            NamedPitch::F2 => 87,
            NamedPitch::FS2 => 92,
            NamedPitch::G2 => 98,
            NamedPitch::GS2 => 103,
            NamedPitch::A2 => 110,
            NamedPitch::AS2 => 116,
            NamedPitch::B2 => 123,
            NamedPitch::C3 => 130,
            NamedPitch::CS3 => 138,
            NamedPitch::D3 => 146,
            NamedPitch::DS3 => 155,
            NamedPitch::E3 => 164,
            NamedPitch::F3 => 174,
            NamedPitch::FS3 => 185,
            NamedPitch::G3 => 196,
            NamedPitch::GS3 => 207,
            NamedPitch::A3 => 220,
            NamedPitch::AS3 => 233,
            NamedPitch::B3 => 246,
            NamedPitch::C4 => 261,
            NamedPitch::CS4 => 277,
            NamedPitch::D4 => 293,
            NamedPitch::DS4 => 311,
            NamedPitch::E4 => 329,
            NamedPitch::F4 => 349,
            NamedPitch::FS4 => 369,
            NamedPitch::G4 => 392,
            NamedPitch::GS4 => 415,
            NamedPitch::A4 => 440,
            NamedPitch::AS4 => 466,
            NamedPitch::B4 => 493,
            NamedPitch::C5 => 523,
            NamedPitch::CS5 => 554,
            NamedPitch::D5 => 587,
            NamedPitch::DS5 => 622,
            NamedPitch::E5 => 659,
            NamedPitch::F5 => 698,
            NamedPitch::FS5 => 739,
            NamedPitch::G5 => 783,
            NamedPitch::GS5 => 830,
            NamedPitch::A5 => 880,
            NamedPitch::AS5 => 932,
            NamedPitch::B5 => 987,
            NamedPitch::C6 => 1046,
            NamedPitch::CS6 => 1108,
            NamedPitch::D6 => 1174,
            NamedPitch::DS6 => 1244,
            NamedPitch::E6 => 1318,
            NamedPitch::F6 => 1396,
            NamedPitch::FS6 => 1479,
            NamedPitch::G6 => 1567,
            NamedPitch::GS6 => 1661,
            NamedPitch::A6 => 1760,
            NamedPitch::AS6 => 1864,
            NamedPitch::B6 => 1975,
            NamedPitch::C7 => 2093,
            NamedPitch::CS7 => 2217,
            NamedPitch::D7 => 2349,
            NamedPitch::DS7 => 2489,
            NamedPitch::E7 => 2637,
            NamedPitch::F7 => 2793,
            NamedPitch::FS7 => 2959,
            NamedPitch::G7 => 3135,
            NamedPitch::GS7 => 3322,
            NamedPitch::A7 => 3520,
            NamedPitch::AS7 => 3729,
            NamedPitch::B7 => 3951,
            NamedPitch::C8 => 4186,
            NamedPitch::CS8 => 4434,
            NamedPitch::D8 => 4698,
            NamedPitch::DS8 => 4978,
            NamedPitch::E8 => 5274,
            NamedPitch::F8 => 5587,
            NamedPitch::FS8 => 5919,
            NamedPitch::G8 => 6271,
            NamedPitch::GS8 => 6644,
            NamedPitch::A8 => 7040,
            NamedPitch::AS8 => 7458,
            NamedPitch::B8 => 7902,
        }
    }
}

/// One step up the scale raises the frequency.
proof fn lemma_scale_step(i: int)
    requires
        0 <= i < SCALE_LEN - 1,
    ensures
        scale_hz(i) < scale_hz(i + 1),
{
}

/// The scale rises strictly: a note further along has a higher frequency.
pub proof fn lemma_scale_increasing(i: int, j: int)
    requires
        0 <= i < j < SCALE_LEN,
    ensures
        scale_hz(i) < scale_hz(j),
    decreases j - i,
{
    lemma_scale_step(j - 1);
    if i < j - 1 {
        lemma_scale_increasing(i, j - 1);
    }
}

/// Every note has a place in the scale.
pub proof fn lemma_index_in_scale(p: NamedPitch)
    ensures
        p.index() < SCALE_LEN,
{
}

/// Of two named pitches, the one later in the scale (from C0 up to B8) has the
/// strictly higher frequency.
pub proof fn lemma_named_pitch_increasing(a: NamedPitch, b: NamedPitch)
    requires
        a.index() < b.index(),
    ensures
        a.hz() < b.hz(),
{
    lemma_index_in_scale(b);
    lemma_scale_increasing(a.index() as int, b.index() as int);
}

} // verus!
