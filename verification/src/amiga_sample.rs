use crate::amiga_module::copy_bytes;
use crate::sample::LoopType;
use vstd::prelude::*;

verus! {

/// The header of a sample in a MOD file.
#[derive(Debug)]
pub struct AmigaSample {
    /// The 22 bytes of the name.
    pub name: Vec<u8>,
    /// Half the length of the sample in bytes.
    pub length_div2: u16,
    pub finetune: u8,
    /// Volume, 0 to 64.
    pub volume: u8,
    /// Half the offset of the loop in bytes.
    pub repeat_offset_div2: u16,
    /// Half the length of the loop in bytes.
    pub repeat_length_div2: u16,
}

/// What the header of a sample holds.
pub struct AmigaSampleView {
    pub name: Seq<u8>,
    pub length_div2: u16,
    pub finetune: u8,
    pub volume: u8,
    pub repeat_offset_div2: u16,
    pub repeat_length_div2: u16,
}

impl View for AmigaSample {
    type V = AmigaSampleView;

    open spec fn view(&self) -> AmigaSampleView {
        AmigaSampleView {
            name: self.name@,
            length_div2: self.length_div2,
            finetune: self.finetune,
            volume: self.volume,
            repeat_offset_div2: self.repeat_offset_div2,
            repeat_length_div2: self.repeat_length_div2,
        }
    }
}

/// The number that two bytes stand for, the high byte first.
pub open spec fn be16(hi: u8, lo: u8) -> u16 {
    (hi as int * 256 + lo as int) as u16
}

/// The sample header that the 30 bytes from `at` on hold.
pub open spec fn sample_at(ser: Seq<u8>, at: int) -> AmigaSampleView {
    AmigaSampleView {
        name: ser.subrange(at, at + 22),
        length_div2: be16(ser[at + 22], ser[at + 23]),
        finetune: ser[at + 24],
        volume: ser[at + 25],
        repeat_offset_div2: be16(ser[at + 26], ser[at + 27]),
        repeat_length_div2: be16(ser[at + 28], ser[at + 29]),
    }
}

/// The loop of a sample, in bytes: its start, which is 0 where the offset
/// lies beyond the sample, and its length, which is 0 where the loop would
/// end beyond the sample.
pub open spec fn spec_loop_points(length_div2: u16, offset_div2: u16, repeat_div2: u16) -> (
    int,
    int,
) {
    let start = if 2 * offset_div2 < 2 * length_div2 {
        2 * offset_div2
    } else {
        0
    };
    let length = if start + 2 * repeat_div2 <= 2 * length_div2 {
        2 * repeat_div2
    } else {
        0
    };
    (start, length)
}

impl AmigaSample {
    /// Reads the header of 30 bytes at `at`.
    pub fn read_at(ser: &[u8], at: usize) -> (r: AmigaSample)
        requires
            at + 30 <= ser.len(),
        ensures
            r@ == sample_at(ser@, at as int),
    {
        AmigaSample {
            name: copy_bytes(ser, at, at + 22),
            length_div2: (ser[at + 22] as u16) * 256 + ser[at + 23] as u16,
            finetune: ser[at + 24],
            volume: ser[at + 25],
            repeat_offset_div2: (ser[at + 26] as u16) * 256 + ser[at + 27] as u16,
            repeat_length_div2: (ser[at + 28] as u16) * 256 + ser[at + 29] as u16,
        }
    }

    /// Reads the header at the start of `ser_sample`. Gives the number of
    /// bytes taken, 30, and the header; or none where `ser_sample` is
    /// shorter.
    pub fn load(ser_sample: &[u8]) -> (r: Option<(usize, AmigaSample)>)
        ensures
            r.is_some() == (ser_sample@.len() >= 30),
            r.is_some() ==> r.unwrap().0 == 30 && r.unwrap().1@ == sample_at(ser_sample@, 0),
    {
        if ser_sample.len() < 30 {
            None
        } else {
            Some((30, Self::read_at(ser_sample, 0)))
        }
    }

    /// The loop of the sample: whether it loops, and the start and the
    /// length of the loop in bytes. A loop of two bytes or less is no loop.
    pub fn loop_points(&self) -> (r: (LoopType, u32, u32))
        ensures
            r.1 == spec_loop_points(
                self.length_div2,
                self.repeat_offset_div2,
                self.repeat_length_div2,
            ).0,
            r.2 == spec_loop_points(
                self.length_div2,
                self.repeat_offset_div2,
                self.repeat_length_div2,
            ).1,
            r.0 == (if r.2 > 2 {
                LoopType::Forward
            } else {
                LoopType::No
            }),
    {
        let length: u32 = 2 * (self.length_div2 as u32);
        let ro: u32 = if 2 * (self.repeat_offset_div2 as u32) < length {
            2 * (self.repeat_offset_div2 as u32)
        } else {
            0
        };
        let rl: u32 = if ro + 2 * (self.repeat_length_div2 as u32) <= length {
            2 * (self.repeat_length_div2 as u32)
        } else {
            0
        };
        let flag = if rl > 2 {
            LoopType::Forward
        } else {
            LoopType::No
        };
        (flag, ro, rl)
    }
}

} // verus!
