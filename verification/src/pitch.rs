use crate::error::DecodeError;
use vstd::prelude::*;

verus! {

/// A pitch: one of 120 semitones over ten octaves, or one of three marks.
///
/// `Empty` stands for a cell without a note, `Cut` silences the channel at
/// once and `KeyOff` releases the note.
#[derive(Clone, Copy, Debug, PartialEq, Eq, Structural, Hash)]
pub enum Pitch {
    /// Octave 0
    C0,
    Cs0,
    D0,
    Ds0,
    E0,
    F0,
    Fs0,
    G0,
    Gs0,
    A0,
    As0,
    B0,
    /// Octave 1
    C1,
    Cs1,
    D1,
    Ds1,
    E1,
    F1,
    Fs1,
    G1,
    Gs1,
    A1,
    As1,
    B1,
    /// Octave 2
    C2,
    Cs2,
    D2,
    Ds2,
    E2,
    F2,
    Fs2,
    G2,
    Gs2,
    A2,
    As2,
    B2,
    /// Octave 3
    C3,
    Cs3,
    D3,
    Ds3,
    E3,
    F3,
    Fs3,
    G3,
    Gs3,
    A3,
    As3,
    B3,
    /// Octave 4
    C4,
    Cs4,
    D4,
    Ds4,
    E4,
    F4,
    Fs4,
    G4,
    Gs4,
    A4,
    As4,
    B4,
    /// Octave 5
    C5,
    Cs5,
    D5,
    Ds5,
    E5,
    F5,
    Fs5,
    G5,
    Gs5,
    A5,
    As5,
    B5,
    /// Octave 6
    C6,
    Cs6,
    D6,
    Ds6,
    E6,
    F6,
    Fs6,
    G6,
    Gs6,
    A6,
    As6,
    B6,
    /// Octave 7
    C7,
    Cs7,
    D7,
    Ds7,
    E7,
    F7,
    Fs7,
    G7,
    Gs7,
    A7,
    As7,
    B7,
    /// Octave 8
    C8,
    Cs8,
    D8,
    Ds8,
    E8,
    F8,
    Fs8,
    G8,
    Gs8,
    A8,
    As8,
    B8,
    /// Octave 9
    C9,
    Cs9,
    D9,
    Ds9,
    E9,
    F9,
    Fs9,
    G9,
    Gs9,
    A9,
    As9,
    B9,
    /// No note.
    Empty,
    /// Cut the note at once.
    Cut,
    /// Release the note.
    KeyOff,
}

impl Pitch {
    /// The byte that stands for the pitch: 0 to 119 for the semitones, 253
    /// for `Empty`, 254 for `Cut` and 255 for `KeyOff`.
    pub open spec fn spec_value(self) -> u8 {
        match self {
            Pitch::C0 => 0u8,
            Pitch::Cs0 => 1u8,
            Pitch::D0 => 2u8,
            Pitch::Ds0 => 3u8,
            Pitch::E0 => 4u8,
            Pitch::F0 => 5u8,
            Pitch::Fs0 => 6u8,
            Pitch::G0 => 7u8,
            Pitch::Gs0 => 8u8,
            Pitch::A0 => 9u8,
            Pitch::As0 => 10u8,
            Pitch::B0 => 11u8,
            Pitch::C1 => 12u8,
            Pitch::Cs1 => 13u8,
            Pitch::D1 => 14u8,
            Pitch::Ds1 => 15u8,
            Pitch::E1 => 16u8,
            Pitch::F1 => 17u8,
            Pitch::Fs1 => 18u8,
            Pitch::G1 => 19u8,
            Pitch::Gs1 => 20u8,
            Pitch::A1 => 21u8,
            Pitch::As1 => 22u8,
            Pitch::B1 => 23u8,
            Pitch::C2 => 24u8,
            Pitch::Cs2 => 25u8,
            Pitch::D2 => 26u8,
            Pitch::Ds2 => 27u8,
            Pitch::E2 => 28u8,
            Pitch::F2 => 29u8,
            Pitch::Fs2 => 30u8,
            Pitch::G2 => 31u8,
            Pitch::Gs2 => 32u8,
            Pitch::A2 => 33u8,
            Pitch::As2 => 34u8,
            Pitch::B2 => 35u8,
            Pitch::C3 => 36u8,
            Pitch::Cs3 => 37u8,
            Pitch::D3 => 38u8,
            Pitch::Ds3 => 39u8,
            Pitch::E3 => 40u8,
            Pitch::F3 => 41u8,
            Pitch::Fs3 => 42u8,
            Pitch::G3 => 43u8,
            Pitch::Gs3 => 44u8,
            Pitch::A3 => 45u8,
            Pitch::As3 => 46u8,
            Pitch::B3 => 47u8,
            Pitch::C4 => 48u8,
            Pitch::Cs4 => 49u8,
            Pitch::D4 => 50u8,
            Pitch::Ds4 => 51u8,
            Pitch::E4 => 52u8,
            Pitch::F4 => 53u8,
            Pitch::Fs4 => 54u8,
            Pitch::G4 => 55u8,
            Pitch::Gs4 => 56u8,
            Pitch::A4 => 57u8,
            Pitch::As4 => 58u8,
            Pitch::B4 => 59u8,
            Pitch::C5 => 60u8,
            Pitch::Cs5 => 61u8,
            Pitch::D5 => 62u8,
            Pitch::Ds5 => 63u8,
            Pitch::E5 => 64u8,
            Pitch::F5 => 65u8,
            Pitch::Fs5 => 66u8,
            Pitch::G5 => 67u8,
            Pitch::Gs5 => 68u8,
            Pitch::A5 => 69u8,
            Pitch::As5 => 70u8,
            Pitch::B5 => 71u8,
            Pitch::C6 => 72u8,
            Pitch::Cs6 => 73u8,
            Pitch::D6 => 74u8,
            Pitch::Ds6 => 75u8,
            Pitch::E6 => 76u8,
            Pitch::F6 => 77u8,
            Pitch::Fs6 => 78u8,
            Pitch::G6 => 79u8,
            Pitch::Gs6 => 80u8,
            Pitch::A6 => 81u8,
            Pitch::As6 => 82u8,
            Pitch::B6 => 83u8,
            Pitch::C7 => 84u8,
            Pitch::Cs7 => 85u8,
            Pitch::D7 => 86u8,
            Pitch::Ds7 => 87u8,
            Pitch::E7 => 88u8,
            Pitch::F7 => 89u8,
            Pitch::Fs7 => 90u8,
            Pitch::G7 => 91u8,
            Pitch::Gs7 => 92u8,
            Pitch::A7 => 93u8,
            Pitch::As7 => 94u8,
            Pitch::B7 => 95u8,
            Pitch::C8 => 96u8,
            Pitch::Cs8 => 97u8,
            Pitch::D8 => 98u8,
            Pitch::Ds8 => 99u8,
            Pitch::E8 => 100u8,
            Pitch::F8 => 101u8,
            Pitch::Fs8 => 102u8,
            Pitch::G8 => 103u8,
            Pitch::Gs8 => 104u8,
            Pitch::A8 => 105u8,
            Pitch::As8 => 106u8,
            Pitch::B8 => 107u8,
            Pitch::C9 => 108u8,
            Pitch::Cs9 => 109u8,
            Pitch::D9 => 110u8,
            Pitch::Ds9 => 111u8,
            Pitch::E9 => 112u8,
            Pitch::F9 => 113u8,
            Pitch::Fs9 => 114u8,
            Pitch::G9 => 115u8,
            Pitch::Gs9 => 116u8,
            Pitch::A9 => 117u8,
            Pitch::As9 => 118u8,
            Pitch::B9 => 119u8,
            Pitch::Empty => 253u8,
            Pitch::Cut => 254u8,
            Pitch::KeyOff => 255u8,
        }
    }

    /// The three-letter name of the pitch, as trackers print it.
    pub open spec fn spec_text(self) -> Seq<char> {
        match self {
            Pitch::C0 => "C-0"@,
            Pitch::Cs0 => "C#0"@,
            Pitch::D0 => "D-0"@,
            Pitch::Ds0 => "D#0"@,
            Pitch::E0 => "E-0"@,
            Pitch::F0 => "F-0"@,
            Pitch::Fs0 => "F#0"@,
            Pitch::G0 => "G-0"@,
            Pitch::Gs0 => "G#0"@,
            Pitch::A0 => "A-0"@,
            Pitch::As0 => "A#0"@,
            Pitch::B0 => "B-0"@,
            Pitch::C1 => "C-1"@,
            Pitch::Cs1 => "C#1"@,
            Pitch::D1 => "D-1"@,
            Pitch::Ds1 => "D#1"@,
            Pitch::E1 => "E-1"@,
            Pitch::F1 => "F-1"@,
            Pitch::Fs1 => "F#1"@,
            Pitch::G1 => "G-1"@,
            Pitch::Gs1 => "G#1"@,
            Pitch::A1 => "A-1"@,
            Pitch::As1 => "A#1"@,
            Pitch::B1 => "B-1"@,
            Pitch::C2 => "C-2"@,
            Pitch::Cs2 => "C#2"@,
            Pitch::D2 => "D-2"@,
            Pitch::Ds2 => "D#2"@,
            Pitch::E2 => "E-2"@,
            Pitch::F2 => "F-2"@,
            Pitch::Fs2 => "F#2"@,
            Pitch::G2 => "G-2"@,
            Pitch::Gs2 => "G#2"@,
            Pitch::A2 => "A-2"@,
            Pitch::As2 => "A#2"@,
            Pitch::B2 => "B-2"@,
            Pitch::C3 => "C-3"@,
            Pitch::Cs3 => "C#3"@,
            Pitch::D3 => "D-3"@,
            Pitch::Ds3 => "D#3"@,
            Pitch::E3 => "E-3"@,
            Pitch::F3 => "F-3"@,
            Pitch::Fs3 => "F#3"@,
            Pitch::G3 => "G-3"@,
            Pitch::Gs3 => "G#3"@,
            Pitch::A3 => "A-3"@,
            Pitch::As3 => "A#3"@,
            Pitch::B3 => "B-3"@,
            Pitch::C4 => "C-4"@,
            Pitch::Cs4 => "C#4"@,
            Pitch::D4 => "D-4"@,
            Pitch::Ds4 => "D#4"@,
            Pitch::E4 => "E-4"@,
            Pitch::F4 => "F-4"@,
            Pitch::Fs4 => "F#4"@,
            Pitch::G4 => "G-4"@,
            Pitch::Gs4 => "G#4"@,
            Pitch::A4 => "A-4"@,
            Pitch::As4 => "A#4"@,
            Pitch::B4 => "B-4"@,
            Pitch::C5 => "C-5"@,
            Pitch::Cs5 => "C#5"@,
            Pitch::D5 => "D-5"@,
            Pitch::Ds5 => "D#5"@,
            Pitch::E5 => "E-5"@,
            Pitch::F5 => "F-5"@,
            Pitch::Fs5 => "F#5"@,
            Pitch::G5 => "G-5"@,
            Pitch::Gs5 => "G#5"@,
            Pitch::A5 => "A-5"@,
            Pitch::As5 => "A#5"@,
            Pitch::B5 => "B-5"@,
            Pitch::C6 => "C-6"@,
            Pitch::Cs6 => "C#6"@,
            Pitch::D6 => "D-6"@,
            Pitch::Ds6 => "D#6"@,
            Pitch::E6 => "E-6"@,
            Pitch::F6 => "F-6"@,
            Pitch::Fs6 => "F#6"@,
            Pitch::G6 => "G-6"@,
            Pitch::Gs6 => "G#6"@,
            Pitch::A6 => "A-6"@,
            Pitch::As6 => "A#6"@,
            Pitch::B6 => "B-6"@,
            Pitch::C7 => "C-7"@,
            Pitch::Cs7 => "C#7"@,
            Pitch::D7 => "D-7"@,
            Pitch::Ds7 => "D#7"@,
            Pitch::E7 => "E-7"@,
            Pitch::F7 => "F-7"@,
            Pitch::Fs7 => "F#7"@,
            Pitch::G7 => "G-7"@,
            Pitch::Gs7 => "G#7"@,
            Pitch::A7 => "A-7"@,
            Pitch::As7 => "A#7"@,
            Pitch::B7 => "B-7"@,
            Pitch::C8 => "C-8"@,
            Pitch::Cs8 => "C#8"@,
            Pitch::D8 => "D-8"@,
            Pitch::Ds8 => "D#8"@,
            Pitch::E8 => "E-8"@,
            Pitch::F8 => "F-8"@,
            Pitch::Fs8 => "F#8"@,
            Pitch::G8 => "G-8"@,
            Pitch::Gs8 => "G#8"@,
            Pitch::A8 => "A-8"@,
            Pitch::As8 => "A#8"@,
            Pitch::B8 => "B-8"@,
            Pitch::C9 => "C-9"@,
            Pitch::Cs9 => "C#9"@,
            Pitch::D9 => "D-9"@,
            Pitch::Ds9 => "D#9"@,
            Pitch::E9 => "E-9"@,
            Pitch::F9 => "F-9"@,
            Pitch::Fs9 => "F#9"@,
            Pitch::G9 => "G-9"@,
            Pitch::Gs9 => "G#9"@,
            Pitch::A9 => "A-9"@,
            Pitch::As9 => "A#9"@,
            Pitch::B9 => "B-9"@,
            Pitch::Empty => "---"@,
            Pitch::Cut => "^^^"@,
            Pitch::KeyOff => "==="@,
        }
    }

    /// Whether `v` stands for a pitch.
    pub open spec fn is_pitch_value(v: u8) -> bool {
        v < 120 || v >= 253
    }

    /// The pitch that `value` stands for, where it stands for one.
    pub open spec fn spec_from_value(value: u8) -> Pitch {
        choose|p: Pitch| p.spec_value() == value
    }

    /// Two pitches with the same byte are the same pitch.
    pub proof fn lemma_value_injective(a: Pitch, b: Pitch)
        requires
            a.spec_value() == b.spec_value(),
        ensures
            a == b,
    {
    }

    /// The pitch of no note.
    pub fn default() -> (r: Pitch)
        ensures
            r == Pitch::Empty,
    {
        Pitch::Empty
    }

    #[inline(always)]
    pub fn is_none(&self) -> (r: bool)
        ensures
            r == (*self == Pitch::Empty),
    {
        matches!(self, Pitch::Empty)
    }

    #[inline(always)]
    pub fn is_keyoff(&self) -> (r: bool)
        ensures
            r == (*self == Pitch::KeyOff),
    {
        matches!(self, Pitch::KeyOff)
    }

    /// Whether the pitch is a semitone, not a mark.
    #[inline(always)]
    pub fn is_valid(&self) -> (r: bool)
        ensures
            r == (self.spec_value() < 120),
    {
        self.value() < 120
    }

    pub fn value(&self) -> (r: u8)
        ensures
            r == self.spec_value(),
    {
        match self {
            Pitch::C0 => 0u8,
            Pitch::Cs0 => 1u8,
            Pitch::D0 => 2u8,
            Pitch::Ds0 => 3u8,
            Pitch::E0 => 4u8,
            Pitch::F0 => 5u8,
            Pitch::Fs0 => 6u8,
            Pitch::G0 => 7u8,
            Pitch::Gs0 => 8u8,
            Pitch::A0 => 9u8,
            Pitch::As0 => 10u8,
            Pitch::B0 => 11u8,
            Pitch::C1 => 12u8,
            Pitch::Cs1 => 13u8,
            Pitch::D1 => 14u8,
            Pitch::Ds1 => 15u8,
            Pitch::E1 => 16u8,
            Pitch::F1 => 17u8,
            Pitch::Fs1 => 18u8,
            Pitch::G1 => 19u8,
            Pitch::Gs1 => 20u8,
            Pitch::A1 => 21u8,
            Pitch::As1 => 22u8,
            Pitch::B1 => 23u8,
            Pitch::C2 => 24u8,
            Pitch::Cs2 => 25u8,
            Pitch::D2 => 26u8,
            Pitch::Ds2 => 27u8,
            Pitch::E2 => 28u8,
            Pitch::F2 => 29u8,
            Pitch::Fs2 => 30u8,
            Pitch::G2 => 31u8,
            Pitch::Gs2 => 32u8,
            Pitch::A2 => 33u8,
            Pitch::As2 => 34u8,
            Pitch::B2 => 35u8,
            Pitch::C3 => 36u8,
            Pitch::Cs3 => 37u8,
            Pitch::D3 => 38u8,
            Pitch::Ds3 => 39u8,
            Pitch::E3 => 40u8,
            Pitch::F3 => 41u8,
            Pitch::Fs3 => 42u8,
            Pitch::G3 => 43u8,
            Pitch::Gs3 => 44u8,
            Pitch::A3 => 45u8,
            Pitch::As3 => 46u8,
            Pitch::B3 => 47u8,
            Pitch::C4 => 48u8,
            Pitch::Cs4 => 49u8,
            Pitch::D4 => 50u8,
            Pitch::Ds4 => 51u8,
            Pitch::E4 => 52u8,
            Pitch::F4 => 53u8,
            Pitch::Fs4 => 54u8,
            Pitch::G4 => 55u8,
            Pitch::Gs4 => 56u8,
            Pitch::A4 => 57u8,
            Pitch::As4 => 58u8,
            Pitch::B4 => 59u8,
            Pitch::C5 => 60u8,
            Pitch::Cs5 => 61u8,
            Pitch::D5 => 62u8,
            Pitch::Ds5 => 63u8,
            Pitch::E5 => 64u8,
            Pitch::F5 => 65u8,
            Pitch::Fs5 => 66u8,
            Pitch::G5 => 67u8,
            Pitch::Gs5 => 68u8,
            Pitch::A5 => 69u8,
            Pitch::As5 => 70u8,
            Pitch::B5 => 71u8,
            Pitch::C6 => 72u8,
            Pitch::Cs6 => 73u8,
            Pitch::D6 => 74u8,
            Pitch::Ds6 => 75u8,
            Pitch::E6 => 76u8,
            Pitch::F6 => 77u8,
            Pitch::Fs6 => 78u8,
            Pitch::G6 => 79u8,
            Pitch::Gs6 => 80u8,
            Pitch::A6 => 81u8,
            Pitch::As6 => 82u8,
            Pitch::B6 => 83u8,
            Pitch::C7 => 84u8,
            Pitch::Cs7 => 85u8,
            Pitch::D7 => 86u8,
            Pitch::Ds7 => 87u8,
            Pitch::E7 => 88u8,
            Pitch::F7 => 89u8,
            Pitch::Fs7 => 90u8,
            Pitch::G7 => 91u8,
            Pitch::Gs7 => 92u8,
            Pitch::A7 => 93u8,
            Pitch::As7 => 94u8,
            Pitch::B7 => 95u8,
            Pitch::C8 => 96u8,
            Pitch::Cs8 => 97u8,
            Pitch::D8 => 98u8,
            Pitch::Ds8 => 99u8,
            Pitch::E8 => 100u8,
            Pitch::F8 => 101u8,
            Pitch::Fs8 => 102u8,
            Pitch::G8 => 103u8,
            Pitch::Gs8 => 104u8,
            Pitch::A8 => 105u8,
            Pitch::As8 => 106u8,
            Pitch::B8 => 107u8,
            Pitch::C9 => 108u8,
            Pitch::Cs9 => 109u8,
            Pitch::D9 => 110u8,
            Pitch::Ds9 => 111u8,
            Pitch::E9 => 112u8,
            Pitch::F9 => 113u8,
            Pitch::Fs9 => 114u8,
            Pitch::G9 => 115u8,
            Pitch::Gs9 => 116u8,
            Pitch::A9 => 117u8,
            Pitch::As9 => 118u8,
            Pitch::B9 => 119u8,
            Pitch::Empty => 253u8,
            Pitch::Cut => 254u8,
            Pitch::KeyOff => 255u8,
        }
    }

    /// The pitch that `value` stands for. Bytes 120 to 252 stand for none
    /// and are refused.
    pub fn try_from(value: u8) -> (r: Result<Pitch, DecodeError>)
        ensures
            Pitch::is_pitch_value(value) ==> r.is_ok() && r.unwrap().spec_value() == value
                && r.unwrap() == Pitch::spec_from_value(value),
            !Pitch::is_pitch_value(value) ==> r == Err::<Pitch, DecodeError>(
                DecodeError::MalformedField,
            ),
    {
        let r = match value {
            0u8 => Ok(Pitch::C0),
            1u8 => Ok(Pitch::Cs0),
            2u8 => Ok(Pitch::D0),
            3u8 => Ok(Pitch::Ds0),
            4u8 => Ok(Pitch::E0),
            5u8 => Ok(Pitch::F0),
            6u8 => Ok(Pitch::Fs0),
            7u8 => Ok(Pitch::G0),
            8u8 => Ok(Pitch::Gs0),
            9u8 => Ok(Pitch::A0),
            10u8 => Ok(Pitch::As0),
            11u8 => Ok(Pitch::B0),
            12u8 => Ok(Pitch::C1),
            13u8 => Ok(Pitch::Cs1),
            14u8 => Ok(Pitch::D1),
            15u8 => Ok(Pitch::Ds1),
            16u8 => Ok(Pitch::E1),
            17u8 => Ok(Pitch::F1),
            18u8 => Ok(Pitch::Fs1),
            19u8 => Ok(Pitch::G1),
            20u8 => Ok(Pitch::Gs1),
            21u8 => Ok(Pitch::A1),
            22u8 => Ok(Pitch::As1),
            23u8 => Ok(Pitch::B1),
            24u8 => Ok(Pitch::C2),
            25u8 => Ok(Pitch::Cs2),
            26u8 => Ok(Pitch::D2),
            27u8 => Ok(Pitch::Ds2),
            28u8 => Ok(Pitch::E2),
            29u8 => Ok(Pitch::F2),
            30u8 => Ok(Pitch::Fs2),
            31u8 => Ok(Pitch::G2),
            32u8 => Ok(Pitch::Gs2),
            33u8 => Ok(Pitch::A2),
            34u8 => Ok(Pitch::As2),
            35u8 => Ok(Pitch::B2),
            36u8 => Ok(Pitch::C3),
            37u8 => Ok(Pitch::Cs3),
            38u8 => Ok(Pitch::D3),
            39u8 => Ok(Pitch::Ds3),
            40u8 => Ok(Pitch::E3),
            41u8 => Ok(Pitch::F3),
            42u8 => Ok(Pitch::Fs3),
            43u8 => Ok(Pitch::G3),
            44u8 => Ok(Pitch::Gs3),
            45u8 => Ok(Pitch::A3),
            46u8 => Ok(Pitch::As3),
            47u8 => Ok(Pitch::B3),
            48u8 => Ok(Pitch::C4),
            49u8 => Ok(Pitch::Cs4),
            50u8 => Ok(Pitch::D4),
            51u8 => Ok(Pitch::Ds4),
            52u8 => Ok(Pitch::E4),
            53u8 => Ok(Pitch::F4),
            54u8 => Ok(Pitch::Fs4),
            55u8 => Ok(Pitch::G4),
            56u8 => Ok(Pitch::Gs4),
            57u8 => Ok(Pitch::A4),
            58u8 => Ok(Pitch::As4),
            59u8 => Ok(Pitch::B4),
            60u8 => Ok(Pitch::C5),
            61u8 => Ok(Pitch::Cs5),
            62u8 => Ok(Pitch::D5),
            63u8 => Ok(Pitch::Ds5),
            64u8 => Ok(Pitch::E5),
            65u8 => Ok(Pitch::F5),
            66u8 => Ok(Pitch::Fs5),
            67u8 => Ok(Pitch::G5),
            68u8 => Ok(Pitch::Gs5),
            69u8 => Ok(Pitch::A5),
            70u8 => Ok(Pitch::As5),
            71u8 => Ok(Pitch::B5),
            72u8 => Ok(Pitch::C6),
            73u8 => Ok(Pitch::Cs6),
            74u8 => Ok(Pitch::D6),
            75u8 => Ok(Pitch::Ds6),
            76u8 => Ok(Pitch::E6),
            77u8 => Ok(Pitch::F6),
            78u8 => Ok(Pitch::Fs6),
            79u8 => Ok(Pitch::G6),
            80u8 => Ok(Pitch::Gs6),
            81u8 => Ok(Pitch::A6),
            82u8 => Ok(Pitch::As6),
            83u8 => Ok(Pitch::B6),
            84u8 => Ok(Pitch::C7),
            85u8 => Ok(Pitch::Cs7),
            86u8 => Ok(Pitch::D7),
            87u8 => Ok(Pitch::Ds7),
            88u8 => Ok(Pitch::E7),
            89u8 => Ok(Pitch::F7),
            90u8 => Ok(Pitch::Fs7),
            91u8 => Ok(Pitch::G7),
            92u8 => Ok(Pitch::Gs7),
            93u8 => Ok(Pitch::A7),
            94u8 => Ok(Pitch::As7),
            95u8 => Ok(Pitch::B7),
            96u8 => Ok(Pitch::C8),
            97u8 => Ok(Pitch::Cs8),
            98u8 => Ok(Pitch::D8),
            99u8 => Ok(Pitch::Ds8),
            100u8 => Ok(Pitch::E8),
            101u8 => Ok(Pitch::F8),
            102u8 => Ok(Pitch::Fs8),
            103u8 => Ok(Pitch::G8),
            104u8 => Ok(Pitch::Gs8),
            105u8 => Ok(Pitch::A8),
            106u8 => Ok(Pitch::As8),
            107u8 => Ok(Pitch::B8),
            108u8 => Ok(Pitch::C9),
            109u8 => Ok(Pitch::Cs9),
            110u8 => Ok(Pitch::D9),
            111u8 => Ok(Pitch::Ds9),
            112u8 => Ok(Pitch::E9),
            113u8 => Ok(Pitch::F9),
            114u8 => Ok(Pitch::Fs9),
            115u8 => Ok(Pitch::G9),
            116u8 => Ok(Pitch::Gs9),
            117u8 => Ok(Pitch::A9),
            118u8 => Ok(Pitch::As9),
            119u8 => Ok(Pitch::B9),
            253u8 => Ok(Pitch::Empty),
            254u8 => Ok(Pitch::Cut),
            255u8 => Ok(Pitch::KeyOff),
            _ => Err(DecodeError::MalformedField),
        };
        proof {
            match r {
                Ok(p) => {
                    Pitch::lemma_value_injective(p, Pitch::spec_from_value(value));
                },
                Err(_) => {},
            }
        }
        r
    }

    /// The three-letter name of the pitch.
    pub fn text(&self) -> (r: &'static str)
        ensures
            r@ == self.spec_text(),
    {
        match self {
            Pitch::C0 => "C-0",
            Pitch::Cs0 => "C#0",
            Pitch::D0 => "D-0",
            Pitch::Ds0 => "D#0",
            Pitch::E0 => "E-0",
            Pitch::F0 => "F-0",
            Pitch::Fs0 => "F#0",
            Pitch::G0 => "G-0",
            Pitch::Gs0 => "G#0",
            Pitch::A0 => "A-0",
            Pitch::As0 => "A#0",
            Pitch::B0 => "B-0",
            Pitch::C1 => "C-1",
            Pitch::Cs1 => "C#1",
            Pitch::D1 => "D-1",
            Pitch::Ds1 => "D#1",
            Pitch::E1 => "E-1",
            Pitch::F1 => "F-1",
            Pitch::Fs1 => "F#1",
            Pitch::G1 => "G-1",
            Pitch::Gs1 => "G#1",
            Pitch::A1 => "A-1",
            Pitch::As1 => "A#1",
            Pitch::B1 => "B-1",
            Pitch::C2 => "C-2",
            Pitch::Cs2 => "C#2",
            Pitch::D2 => "D-2",
            Pitch::Ds2 => "D#2",
            Pitch::E2 => "E-2",
            Pitch::F2 => "F-2",
            Pitch::Fs2 => "F#2",
            Pitch::G2 => "G-2",
            Pitch::Gs2 => "G#2",
            Pitch::A2 => "A-2",
            Pitch::As2 => "A#2",
            Pitch::B2 => "B-2",
            Pitch::C3 => "C-3",
            Pitch::Cs3 => "C#3",
            Pitch::D3 => "D-3",
            Pitch::Ds3 => "D#3",
            Pitch::E3 => "E-3",
            Pitch::F3 => "F-3",
            Pitch::Fs3 => "F#3",
            Pitch::G3 => "G-3",
            Pitch::Gs3 => "G#3",
            Pitch::A3 => "A-3",
            Pitch::As3 => "A#3",
            Pitch::B3 => "B-3",
            Pitch::C4 => "C-4",
            Pitch::Cs4 => "C#4",
            Pitch::D4 => "D-4",
            Pitch::Ds4 => "D#4",
            Pitch::E4 => "E-4",
            Pitch::F4 => "F-4",
            Pitch::Fs4 => "F#4",
            Pitch::G4 => "G-4",
            Pitch::Gs4 => "G#4",
            Pitch::A4 => "A-4",
            Pitch::As4 => "A#4",
            Pitch::B4 => "B-4",
            Pitch::C5 => "C-5",
            Pitch::Cs5 => "C#5",
            Pitch::D5 => "D-5",
            Pitch::Ds5 => "D#5",
            Pitch::E5 => "E-5",
            Pitch::F5 => "F-5",
            Pitch::Fs5 => "F#5",
            Pitch::G5 => "G-5",
            Pitch::Gs5 => "G#5",
            Pitch::A5 => "A-5",
            Pitch::As5 => "A#5",
            Pitch::B5 => "B-5",
            Pitch::C6 => "C-6",
            Pitch::Cs6 => "C#6",
            Pitch::D6 => "D-6",
            Pitch::Ds6 => "D#6",
            Pitch::E6 => "E-6",
            Pitch::F6 => "F-6",
            Pitch::Fs6 => "F#6",
            Pitch::G6 => "G-6",
            Pitch::Gs6 => "G#6",
            Pitch::A6 => "A-6",
            Pitch::As6 => "A#6",
            Pitch::B6 => "B-6",
            Pitch::C7 => "C-7",
            Pitch::Cs7 => "C#7",
            Pitch::D7 => "D-7",
            Pitch::Ds7 => "D#7",
            Pitch::E7 => "E-7",
            Pitch::F7 => "F-7",
            Pitch::Fs7 => "F#7",
            Pitch::G7 => "G-7",
            Pitch::Gs7 => "G#7",
            Pitch::A7 => "A-7",
            Pitch::As7 => "A#7",
            Pitch::B7 => "B-7",
            Pitch::C8 => "C-8",
            Pitch::Cs8 => "C#8",
            Pitch::D8 => "D-8",
            Pitch::Ds8 => "D#8",
            Pitch::E8 => "E-8",
            Pitch::F8 => "F-8",
            Pitch::Fs8 => "F#8",
            Pitch::G8 => "G-8",
            Pitch::Gs8 => "G#8",
            Pitch::A8 => "A-8",
            Pitch::As8 => "A#8",
            Pitch::B8 => "B-8",
            Pitch::C9 => "C-9",
            Pitch::Cs9 => "C#9",
            Pitch::D9 => "D-9",
            Pitch::Ds9 => "D#9",
            Pitch::E9 => "E-9",
            Pitch::F9 => "F-9",
            Pitch::Fs9 => "F#9",
            Pitch::G9 => "G-9",
            Pitch::Gs9 => "G#9",
            Pitch::A9 => "A-9",
            Pitch::As9 => "A#9",
            Pitch::B9 => "B-9",
            Pitch::Empty => "---",
            Pitch::Cut => "^^^",
            Pitch::KeyOff => "===",
        }
    }
}

} // verus!
