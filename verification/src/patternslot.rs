use crate::error::DecodeError;
use crate::pitch::Pitch;
use vstd::prelude::*;

verus! {

/// One cell of a pattern as a file holds it: the note, the instrument, and
/// the raw volume and effect bytes, whose meaning depends on the format.
#[derive(Clone, Copy, Debug, PartialEq, Eq, Structural)]
pub struct PatternSlot {
    pub note: Pitch,
    pub instrument: Option<usize>,
    pub volume: u8,
    pub effect_type: u8,
    pub effect_parameter: u8,
}

impl DeepView for PatternSlot {
    type V = PatternSlot;

    open spec fn deep_view(&self) -> PatternSlot {
        *self
    }
}

/// The note number, 1 to 84, that an Amiga period stands for; 0 for the
/// period 0, which stands for no note. Other periods stand for nothing.
pub open spec fn spec_amiga_pitch(period: u16) -> Option<u8> {
    match period {
        6848u16 => Some(1u8),
        6464u16 => Some(2u8),
        6096u16 => Some(3u8),
        5760u16 => Some(4u8),
        5424u16 => Some(5u8),
        5120u16 => Some(6u8),
        4832u16 => Some(7u8),
        4560u16 => Some(8u8),
        4304u16 => Some(9u8),
        4064u16 => Some(10u8),
        3840u16 => Some(11u8),
        3624u16 => Some(12u8),
        3424u16 => Some(13u8),
        3232u16 => Some(14u8),
        3048u16 => Some(15u8),
        2880u16 => Some(16u8),
        2712u16 => Some(17u8),
        2560u16 => Some(18u8),
        2416u16 => Some(19u8),
        2280u16 => Some(20u8),
        2152u16 => Some(21u8),
        2032u16 => Some(22u8),
        1920u16 => Some(23u8),
        1812u16 => Some(24u8),
        1712u16 => Some(25u8),
        1616u16 => Some(26u8),
        1524u16 => Some(27u8),
        1440u16 => Some(28u8),
        1356u16 => Some(29u8),
        1280u16 => Some(30u8),
        1208u16 => Some(31u8),
        1140u16 => Some(32u8),
        1076u16 => Some(33u8),
        1016u16 => Some(34u8),
        960u16 => Some(35u8),
        906u16 => Some(36u8),
        856u16 => Some(37u8),
        808u16 => Some(38u8),
        762u16 => Some(39u8),
        720u16 => Some(40u8),
        678u16 => Some(41u8),
        640u16 => Some(42u8),
        604u16 => Some(43u8),
        570u16 => Some(44u8),
        538u16 => Some(45u8),
        508u16 => Some(46u8),
        480u16 => Some(47u8),
        453u16 => Some(48u8),
        428u16 => Some(49u8),
        404u16 => Some(50u8),
        381u16 => Some(51u8),
        360u16 => Some(52u8),
        339u16 => Some(53u8),
        320u16 => Some(54u8),
        302u16 => Some(55u8),
        285u16 => Some(56u8),
        269u16 => Some(57u8),
        254u16 => Some(58u8),
        240u16 => Some(59u8),
        226u16 => Some(60u8),
        214u16 => Some(61u8),
        202u16 => Some(62u8),
        190u16 => Some(63u8),
        180u16 => Some(64u8),
        170u16 => Some(65u8),
        160u16 => Some(66u8),
        151u16 => Some(67u8),
        143u16 => Some(68u8),
        135u16 => Some(69u8),
        127u16 => Some(70u8),
        120u16 => Some(71u8),
        113u16 => Some(72u8),
        107u16 => Some(73u8),
        101u16 => Some(74u8),
        95u16 => Some(75u8),
        90u16 => Some(76u8),
        85u16 => Some(77u8),
        80u16 => Some(78u8),
        75u16 => Some(79u8),
        71u16 => Some(80u8),
        67u16 => Some(81u8),
        63u16 => Some(82u8),
        60u16 => Some(83u8),
        56u16 => Some(84u8),
        0u16 => Some(0u8),
        _ => None,
    }
}

/// The pitch behind a byte, or the empty pitch where the byte stands for none.
pub open spec fn pitch_or_empty(value: u8) -> Pitch {
    if Pitch::is_pitch_value(value) {
        choose|p: Pitch| p.spec_value() == value
    } else {
        Pitch::Empty
    }
}

/// The period field of an Amiga cell: bits 16 to 27.
pub open spec fn amiga_period(input: u32) -> u16 {
    ((input >> 16) & 0x0FFF) as u16
}

/// The instrument number of an Amiga cell: its high half in bits 28 to 31,
/// its low half in bits 12 to 15.
pub open spec fn amiga_instrument(input: u32) -> u8 {
    ((((input >> 28) & 0x000F) << 4) | ((input >> 12) & 0x000F)) as u8
}

/// The slot that the four bytes of an Amiga cell hold, read as one
/// big-endian word. A period that is no Amiga period gives no note.
pub open spec fn spec_deserialize(input: u32) -> PatternSlot {
    let number = match spec_amiga_pitch(amiga_period(input)) {
        Some(n) => n,
        None => 0u8,
    };
    let instrument = amiga_instrument(input);
    PatternSlot {
        note: if number == 0 {
            Pitch::Empty
        } else {
            pitch_or_empty((number - 1) as u8)
        },
        instrument: if instrument == 0 {
            None
        } else {
            Some((instrument - 1) as usize)
        },
        volume: 0,
        effect_type: ((input >> 8) & 0x000F) as u8,
        effect_parameter: (input & 0x00FF) as u8,
    }
}

/// 1 if the bit of `mask` under `bit` is set, else 0.
pub open spec fn bit_count(mask: u8, bit: u8) -> int {
    if mask & bit != 0 {
        1
    } else {
        0
    }
}

/// Whether an XM cell that starts with `first` is packed.
pub open spec fn xm_is_packed(first: u8) -> bool {
    first & 0x80 != 0
}

/// The number of bytes of the XM cell that starts with `first`: five where it
/// is not packed, else the mask byte and one byte for each of its five low
/// bits that is set.
pub open spec fn xm_cell_len(first: u8) -> int {
    if xm_is_packed(first) {
        1 + bit_count(first, 1) + bit_count(first, 2) + bit_count(first, 4) + bit_count(first, 8)
            + bit_count(first, 16)
    } else {
        5
    }
}

/// The place in `src` of field `k` (0 the note, 4 the effect parameter) of a
/// packed XM cell.
pub open spec fn xm_field_offset(first: u8, k: int) -> int {
    1 + (if k > 0 {
        bit_count(first, 1)
    } else {
        0
    }) + (if k > 1 {
        bit_count(first, 2)
    } else {
        0
    }) + (if k > 2 {
        bit_count(first, 4)
    } else {
        0
    }) + (if k > 3 {
        bit_count(first, 8)
    } else {
        0
    })
}

/// The raw byte of field `k` of the XM cell at the start of `src`: a field
/// that a packed cell leaves out is 0.
pub open spec fn xm_field(src: Seq<u8>, k: int) -> u8
    recommends
        0 <= k < 5,
        src.len() >= 1,
        src.len() >= xm_cell_len(src[0]),
{
    let first = src[0];
    if xm_is_packed(first) {
        let bit: u8 = if k == 0 {
            1
        } else if k == 1 {
            2
        } else if k == 2 {
            4
        } else if k == 3 {
            8
        } else {
            16
        };
        if first & bit != 0 {
            src[xm_field_offset(first, k)]
        } else {
            0
        }
    } else {
        src[k]
    }
}

/// The note that an XM note byte stands for: 97 releases the note, 0 and the
/// bytes that stand for no pitch give no note, and another byte is one more
/// than the pitch's value.
pub open spec fn xm_note(byte: u8) -> Pitch {
    if byte == 97 {
        Pitch::KeyOff
    } else if byte == 0 {
        Pitch::Empty
    } else {
        pitch_or_empty((byte - 1) as u8)
    }
}

/// The slot that five raw XM bytes stand for.
pub open spec fn xm_slot(note: u8, instrument: u8, volume: u8, fx: u8, param: u8) -> PatternSlot {
    PatternSlot {
        note: xm_note(note),
        instrument: if instrument != 0 {
            Some((instrument - 1) as usize)
        } else {
            None
        },
        volume: volume,
        effect_type: fx,
        effect_parameter: param,
    }
}

/// The XM cell at the start of `src`: the number of bytes it takes and the
/// slot it holds, or none where `src` ends before the cell does.
pub open spec fn spec_load_xm(src: Seq<u8>) -> Option<(int, PatternSlot)> {
    if src.len() < 1 || src.len() < xm_cell_len(src[0]) {
        None
    } else {
        Some(
            (
                xm_cell_len(src[0]),
                xm_slot(
                    xm_field(src, 0),
                    xm_field(src, 1),
                    xm_field(src, 2),
                    xm_field(src, 3),
                    xm_field(src, 4),
                ),
            ),
        )
    }
}

/// The five bytes of a slot in an XM file that is not packed: the note byte
/// (97 for a released note, else the value of the pitch plus one), the
/// instrument byte (0 for none, else the low byte of the instrument less
/// one, modulo 256), and the volume and effect bytes.
pub open spec fn spec_save_xm_unpack(slot: PatternSlot) -> Seq<u8> {
    seq![
        if slot.note == Pitch::KeyOff {
            97u8
        } else {
            (slot.note.spec_value() + 1) as u8
        },
        match slot.instrument {
            Some(i) => ((i % 256 + 255) % 256) as u8,
            None => 0u8,
        },
        slot.volume,
        slot.effect_type,
        slot.effect_parameter,
    ]
}

/// The bytes of `bytes` from index `from` on that are not 0, in their order.
pub open spec fn nonzero_from(bytes: Seq<u8>, from: int) -> Seq<u8>
    decreases bytes.len() - from,
{
    if from < 0 || from >= bytes.len() {
        Seq::empty()
    } else if bytes[from] != 0 {
        seq![bytes[from]] + nonzero_from(bytes, from + 1)
    } else {
        nonzero_from(bytes, from + 1)
    }
}

/// The mask of a packed cell: the top bit, and bit `k` for each of the five
/// bytes that is not 0.
pub open spec fn pack_mask(bytes: Seq<u8>) -> int {
    128 + (if bytes[0] != 0 {
        1int
    } else {
        0
    }) + (if bytes[1] != 0 {
        2int
    } else {
        0
    }) + (if bytes[2] != 0 {
        4int
    } else {
        0
    }) + (if bytes[3] != 0 {
        8int
    } else {
        0
    }) + (if bytes[4] != 0 {
        16int
    } else {
        0
    })
}

/// The bytes of a slot in an XM file, packed where that saves space: the
/// five bytes as they are where the first four are all set, else the mask
/// followed by the bytes that are not 0.
pub open spec fn spec_save_xm(slot: PatternSlot) -> Seq<u8> {
    let bytes = spec_save_xm_unpack(slot);
    if bytes[0] != 0 && bytes[1] != 0 && bytes[2] != 0 && bytes[3] != 0 {
        bytes
    } else {
        seq![pack_mask(bytes) as u8] + nonzero_from(bytes, 0)
    }
}

/// The pitch behind a byte, or the empty pitch where the byte stands for none.
pub fn pitch_from_value(value: u8) -> (r: Pitch)
    ensures
        r == pitch_or_empty(value),
{
    match Pitch::try_from(value) {
        Ok(p) => {
            proof {
                let q = choose|q: Pitch| q.spec_value() == value;
                Pitch::lemma_value_injective(p, q);
            }
            p
        },
        Err(_) => Pitch::Empty,
    }
}

impl PatternSlot {
    /// The slot of an empty cell.
    pub open spec fn spec_default() -> PatternSlot {
        PatternSlot {
            note: Pitch::Empty,
            instrument: None,
            volume: 0,
            effect_type: 0,
            effect_parameter: 0,
        }
    }

    /// The slot of an empty cell.
    pub fn default() -> (r: PatternSlot)
        ensures
            r == PatternSlot::spec_default(),
    {
        PatternSlot {
            note: Pitch::Empty,
            instrument: None,
            volume: 0,
            effect_type: 0,
            effect_parameter: 0,
        }
    }

    /// The note number of an Amiga period.
    pub fn amiga_pitch(period: u16) -> (r: Option<u8>)
        ensures
            r == spec_amiga_pitch(period),
            r.is_some() ==> r.unwrap() <= 84,
    {
        match period {
            6848u16 => Some(1u8),
            6464u16 => Some(2u8),
            6096u16 => Some(3u8),
            5760u16 => Some(4u8),
            5424u16 => Some(5u8),
            5120u16 => Some(6u8),
            4832u16 => Some(7u8),
            4560u16 => Some(8u8),
            4304u16 => Some(9u8),
            4064u16 => Some(10u8),
            3840u16 => Some(11u8),
            3624u16 => Some(12u8),
            3424u16 => Some(13u8),
            3232u16 => Some(14u8),
            3048u16 => Some(15u8),
            2880u16 => Some(16u8),
            2712u16 => Some(17u8),
            2560u16 => Some(18u8),
            2416u16 => Some(19u8),
            2280u16 => Some(20u8),
            2152u16 => Some(21u8),
            2032u16 => Some(22u8),
            1920u16 => Some(23u8),
            1812u16 => Some(24u8),
            1712u16 => Some(25u8),
            1616u16 => Some(26u8),
            1524u16 => Some(27u8),
            1440u16 => Some(28u8),
            1356u16 => Some(29u8),
            1280u16 => Some(30u8),
            1208u16 => Some(31u8),
            1140u16 => Some(32u8),
            1076u16 => Some(33u8),
            1016u16 => Some(34u8),
            960u16 => Some(35u8),
            906u16 => Some(36u8),
            856u16 => Some(37u8),
            808u16 => Some(38u8),
            762u16 => Some(39u8),
            720u16 => Some(40u8),
            678u16 => Some(41u8),
            640u16 => Some(42u8),
            604u16 => Some(43u8),
            570u16 => Some(44u8),
            538u16 => Some(45u8),
            508u16 => Some(46u8),
            480u16 => Some(47u8),
            453u16 => Some(48u8),
            428u16 => Some(49u8),
            404u16 => Some(50u8),
            381u16 => Some(51u8),
            360u16 => Some(52u8),
            339u16 => Some(53u8),
            320u16 => Some(54u8),
            302u16 => Some(55u8),
            285u16 => Some(56u8),
            269u16 => Some(57u8),
            254u16 => Some(58u8),
            240u16 => Some(59u8),
            226u16 => Some(60u8),
            214u16 => Some(61u8),
            202u16 => Some(62u8),
            190u16 => Some(63u8),
            180u16 => Some(64u8),
            170u16 => Some(65u8),
            160u16 => Some(66u8),
            151u16 => Some(67u8),
            143u16 => Some(68u8),
            135u16 => Some(69u8),
            127u16 => Some(70u8),
            120u16 => Some(71u8),
            113u16 => Some(72u8),
            107u16 => Some(73u8),
            101u16 => Some(74u8),
            95u16 => Some(75u8),
            90u16 => Some(76u8),
            85u16 => Some(77u8),
            80u16 => Some(78u8),
            75u16 => Some(79u8),
            71u16 => Some(80u8),
            67u16 => Some(81u8),
            63u16 => Some(82u8),
            60u16 => Some(83u8),
            56u16 => Some(84u8),
            0u16 => Some(0u8),
            _ => None,
        }
    }

    /// Decodes the four bytes of an Amiga cell, given as one big-endian word:
    /// `0bIIII_PPPPPPPPPPPP_IIII_EEEE_DDDDDDDD`, with the period P, the
    /// instrument number I, the effect E and its parameter D.
    pub fn deserialize(input: u32) -> (r: PatternSlot)
        ensures
            r == spec_deserialize(input),
    {
        assert(((input >> 16) & 0x0FFF) <= 0x0FFF && ((input >> 28) & 0x000F) <= 0x000F && ((input
            >> 12) & 0x000F) <= 0x000F && ((input >> 8) & 0x000F) <= 0x000F && (input & 0x00FF)
            <= 0x00FF) by (bit_vector);
        let period: u16 = ((input >> 16) & 0x0FFF) as u16;
        let instrument_high: u8 = ((input >> 28) & 0x000F) as u8;
        let instrument_low: u8 = ((input >> 12) & 0x000F) as u8;
        assert(instrument_high <= 15u8 ==> (instrument_high << 4) | instrument_low == ((((
        instrument_high as u32) << 4) | (instrument_low as u32)) as u8)) by (bit_vector);
        assert(((((input >> 28) & 0x000F) << 4) | ((input >> 12) & 0x000F)) <= 0xFF)
            by (bit_vector);
        let instrument: u8 = (instrument_high << 4) | instrument_low;
        let effect: u8 = ((input >> 8) & 0x000F) as u8;
        let data: u8 = (input & 0x00FF) as u8;
        let nu8: u8 = match Self::amiga_pitch(period) {
            Some(n) => n,
            None => 0,
        };
        let note: Pitch = if nu8 == 0 {
            Pitch::Empty
        } else {
            pitch_from_value(nu8 - 1)
        };
        let instrument: Option<usize> = if instrument == 0 {
            None
        } else {
            Some((instrument - 1) as usize)
        };
        PatternSlot { note, instrument, volume: 0, effect_type: effect, effect_parameter: data }
    }

    /// Decodes the XM cell at the start of `src`. Gives the number of bytes
    /// the cell takes and its slot, or an error where `src` ends too early.
    pub fn load_xm(src: &[u8]) -> (r: Result<(usize, PatternSlot), DecodeError>)
        ensures
            match spec_load_xm(src@) {
                Some((used, slot)) => r == Ok::<(usize, PatternSlot), DecodeError>(
                    (used as usize, slot),
                ),
                None => r == Err::<(usize, PatternSlot), DecodeError>(DecodeError::TruncatedInput),
            },
    {
        if src.len() < 1 {
            return Err(DecodeError::TruncatedInput);
        }
        let note: u8 = src[0];
        let mut dst: [u8; 5] = [0;5];
        let mut i: usize = 1;
        if note & 0b1000_0000 != 0 {
            let mut k: usize = 0;
            let mut bit: u8 = 1;
            while k < 5
                invariant
                    0 <= k <= 5,
                    note == src@[0],
                    xm_is_packed(note),
                    bit as int == (if k == 0 {
                        1int
                    } else if k == 1 {
                        2
                    } else if k == 2 {
                        4
                    } else if k == 3 {
                        8
                    } else if k == 4 {
                        16
                    } else {
                        32
                    }),
                    i as int == xm_field_offset(note, k as int) + (if k == 5 {
                        bit_count(note, 16)
                    } else {
                        0
                    }),
                    i <= src@.len(),
                    i <= 6,
                    forall|m: int| 0 <= m < k ==> dst@[m] == xm_field(src@, m),
                decreases 5 - k,
            {
                if note & bit != 0 {
                    if i >= src.len() {
                        return Err(DecodeError::TruncatedInput);
                    }
                    dst[k] = src[i];
                    i += 1;
                } else {
                    dst[k] = 0;
                }
                k += 1;
                bit = bit * 2;
            }
        } else {
            if src.len() < 5 {
                return Err(DecodeError::TruncatedInput);
            }
            dst[0] = note;
            dst[1] = src[1];
            dst[2] = src[2];
            dst[3] = src[3];
            dst[4] = src[4];
            i = 5;
        }
        let pitch: Pitch = if dst[0] == 97 {
            Pitch::KeyOff
        } else if dst[0] == 0 {
            Pitch::Empty
        } else {
            pitch_from_value(dst[0] - 1)
        };
        let instrument: Option<usize> = if dst[1] != 0 {
            Some((dst[1] - 1) as usize)
        } else {
            None
        };
        Ok(
            (
                i,
                PatternSlot {
                    note: pitch,
                    instrument,
                    volume: dst[2],
                    effect_type: dst[3],
                    effect_parameter: dst[4],
                },
            ),
        )
    }

    fn xm_bytes(&self) -> (r: [u8; 5])
        ensures
            r@ == spec_save_xm_unpack(*self),
    {
        let note: u8 = if self.note.is_keyoff() {
            97
        } else {
            self.note.value() + 1
        };
        let instrument: u8 = match self.instrument {
            Some(instr) => (((instr % 256) + 255) % 256) as u8,
            None => 0,
        };
        let bytes: [u8; 5] = [note, instrument, self.volume, self.effect_type, self.effect_parameter];
        assert(bytes@ =~= spec_save_xm_unpack(*self));
        bytes
    }

    /// The slot as the five bytes of an XM cell that is not packed.
    pub fn save_xm_unpack(&self) -> (r: Vec<u8>)
        ensures
            r@ == spec_save_xm_unpack(*self),
    {
        let bytes = self.xm_bytes();
        let mut out: Vec<u8> = Vec::new();
        let mut i: usize = 0;
        while i < 5
            invariant
                0 <= i <= 5,
                out@ == bytes@.take(i as int),
            decreases 5 - i,
        {
            out.push(bytes[i]);
            assert(bytes@.take(i + 1) =~= bytes@.take(i as int).push(bytes@[i as int]));
            i += 1;
        }
        assert(bytes@.take(5) =~= bytes@);
        out
    }

    /// The slot as the bytes of an XM cell, packed where that saves space.
    pub fn save_xm(&self) -> (r: Vec<u8>)
        ensures
            r@ == spec_save_xm(*self),
    {
        let bytes = self.xm_bytes();
        if bytes[0] > 0 && bytes[1] > 0 && bytes[2] > 0 && bytes[3] > 0 {
            return self.save_xm_unpack();
        }
        let mut pack_bits: u8 = 0b1000_0000;
        let mut fields: Vec<u8> = Vec::new();
        let mut k: usize = 5;
        proof {
            assert(nonzero_from(bytes@, 5) =~= Seq::<u8>::empty());
        }
        while k > 0
            invariant
                0 <= k <= 5,
                fields@ == nonzero_from(bytes@, k as int),
            decreases k,
        {
            k -= 1;
            if bytes[k] > 0 {
                fields.insert(0, bytes[k]);
                assert(fields@ =~= seq![bytes@[k as int]] + nonzero_from(bytes@, k + 1));
            }
        }
        if bytes[0] > 0 {
            pack_bits = pack_bits + 1;
        }
        if bytes[1] > 0 {
            pack_bits = pack_bits + 2;
        }
        if bytes[2] > 0 {
            pack_bits = pack_bits + 4;
        }
        if bytes[3] > 0 {
            pack_bits = pack_bits + 8;
        }
        if bytes[4] > 0 {
            pack_bits = pack_bits + 16;
        }
        let mut out: Vec<u8> = Vec::new();
        out.push(pack_bits);
        let mut i: usize = 0;
        while i < fields.len()
            invariant
                0 <= i <= fields.len(),
                out@ == seq![pack_bits] + fields@.take(i as int),
            decreases fields.len() - i,
        {
            out.push(fields[i]);
            assert(fields@.take(i + 1) =~= fields@.take(i as int).push(fields@[i as int]));
            i += 1;
        }
        assert(fields@.take(fields.len() as int) =~= fields@);
        out
    }
}

} // verus!
