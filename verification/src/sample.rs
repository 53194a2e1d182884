use crate::amount::{clamp_signed_raw, clamp_unit_raw, Amount};
use vstd::prelude::*;

verus! {

/// How a sample is played once its end is reached.
#[derive(Clone, Copy, Debug, PartialEq, Eq, Structural)]
pub enum LoopType {
    No,
    Forward,
    PingPong,
}

impl LoopType {
    pub fn default() -> (r: LoopType)
        ensures
            r == LoopType::No,
    {
        LoopType::No
    }
}

/// The PCM data of a sample, at 8 or 16 bits. Stereo data holds the left
/// and the right value of each frame in turn.
#[derive(Clone, Debug)]
pub enum SampleDataType {
    Mono8(Vec<i8>),
    Mono16(Vec<i16>),
    Stereo8(Vec<i8>),
    Stereo16(Vec<i16>),
}

/// What sample data holds.
pub enum SampleDataView {
    Mono8(Seq<i8>),
    Mono16(Seq<i16>),
    Stereo8(Seq<i8>),
    Stereo16(Seq<i16>),
}

impl View for SampleDataType {
    type V = SampleDataView;

    open spec fn view(&self) -> SampleDataView {
        match self {
            SampleDataType::Mono8(v) => SampleDataView::Mono8(v@),
            SampleDataType::Mono16(v) => SampleDataView::Mono16(v@),
            SampleDataType::Stereo8(v) => SampleDataView::Stereo8(v@),
            SampleDataType::Stereo16(v) => SampleDataView::Stereo16(v@),
        }
    }
}

impl SampleDataView {
    /// The number of frames: of values for mono data, of pairs for stereo.
    pub open spec fn frames(self) -> int {
        match self {
            SampleDataView::Mono8(v) => v.len() as int,
            SampleDataView::Mono16(v) => v.len() as int,
            SampleDataView::Stereo8(v) => v.len() as int / 2,
            SampleDataView::Stereo16(v) => v.len() as int / 2,
        }
    }
}

impl SampleDataType {
    /// The number of frames.
    pub fn len(&self) -> (r: usize)
        ensures
            r == self@.frames(),
    {
        match self {
            SampleDataType::Mono8(v) => v.len(),
            SampleDataType::Mono16(v) => v.len(),
            SampleDataType::Stereo8(v) => v.len() / 2,
            SampleDataType::Stereo16(v) => v.len() / 2,
        }
    }
}

/// A sample: its PCM data and how to play it.
#[derive(Clone, Debug)]
pub struct Sample {
    pub name: String,
    /// From -96 to 95, with 0 for C-4.
    pub relative_pitch: i8,
    /// From -1 to 1.
    pub finetune: Amount,
    /// From 0 to 1.
    pub volume: Amount,
    /// From 0 for left to 1 for right.
    pub panning: Amount,
    pub loop_flag: LoopType,
    pub loop_start: u32,
    pub loop_length: u32,
    pub sustain_loop_flag: LoopType,
    pub sustain_loop_start: u32,
    pub sustain_loop_length: u32,
    pub data: Option<SampleDataType>,
}

/// The frame that is played at position `pos` of a sample of `len` frames
/// with a loop of `length` frames from `start` on. Without a loop the last
/// frame is held. A forward loop starts again at its start; a ping-pong loop
/// runs back from its end and then forth again.
pub open spec fn spec_calculate_loop(
    len: int,
    pos: int,
    start: int,
    length: int,
    loop_type: LoopType,
) -> int {
    let end = start + length;
    match loop_type {
        LoopType::No => if pos < len {
            pos
        } else {
            len - 1
        },
        LoopType::Forward => if pos < end {
            pos
        } else {
            start + (pos - start) % length
        },
        LoopType::PingPong => if pos < end {
            pos
        } else {
            let turn = (pos - start) % (2 * length);
            if turn < length {
                start + turn
            } else {
                end - (turn - length) - 1
            }
        },
    }
}

/// Whether a position can be looked up: without a loop the sample has a
/// frame to hold, and with a loop the loop has a frame.
pub open spec fn loop_is_playable(
    len: int,
    pos: int,
    start: int,
    length: int,
    loop_type: LoopType,
) -> bool {
    match loop_type {
        LoopType::No => pos < len || len >= 1,
        _ => pos < start + length || length >= 1,
    }
}

/// A position within a loop stays within the loop.
pub proof fn lemma_loop_stays_in_range(len: int, pos: int, start: int, length: int, loop_type: LoopType)
    requires
        0 <= pos,
        0 <= start,
        0 <= length,
        loop_type != LoopType::No,
        pos >= start + length,
        length >= 1,
    ensures
        start <= spec_calculate_loop(len, pos, start, length, loop_type) < start + length,
{
}

impl Sample {
    /// The number of frames.
    pub open spec fn spec_len(&self) -> int {
        match self.data {
            Some(d) => d@.frames(),
            None => 0,
        }
    }

    /// The number of frames.
    pub fn len(&self) -> (r: usize)
        ensures
            r == self.spec_len(),
    {
        match &self.data {
            Some(d) => d.len(),
            None => 0,
        }
    }

    /// Brings the volume and the panning into the range 0 to 1, the
    /// finetune into -1 to 1 and the relative pitch into -95 to 96; a loop
    /// that starts beyond the sample starts at 0, and a loop that ends
    /// beyond the sample ends with it.
    pub fn clamp(&mut self)
        requires
            old(self).spec_len() <= u32::MAX,
        ensures
            final(self).volume@ == clamp_unit_raw(old(self).volume@),
            final(self).panning@ == clamp_unit_raw(old(self).panning@),
            final(self).finetune@ == clamp_signed_raw(old(self).finetune@),
            final(self).relative_pitch == (if old(self).relative_pitch < -95 {
                -95i8
            } else if old(self).relative_pitch > 96 {
                96i8
            } else {
                old(self).relative_pitch
            }),
            final(self).sustain_loop_start == (if old(self).sustain_loop_start > old(
                self,
            ).spec_len() {
                0u32
            } else {
                old(self).sustain_loop_start
            }),
            final(self).sustain_loop_length == (if final(self).sustain_loop_start + old(
                self,
            ).sustain_loop_length > old(self).spec_len() {
                (old(self).spec_len() - final(self).sustain_loop_start) as u32
            } else {
                old(self).sustain_loop_length
            }),
            final(self).loop_start == (if old(self).loop_start > old(self).spec_len() {
                0u32
            } else {
                old(self).loop_start
            }),
            final(self).loop_length == (if final(self).loop_start + old(self).loop_length > old(
                self,
            ).spec_len() {
                (old(self).spec_len() - final(self).loop_start) as u32
            } else {
                old(self).loop_length
            }),
            final(self).data == old(self).data,
            final(self).name == old(self).name,
            final(self).loop_flag == old(self).loop_flag,
            final(self).sustain_loop_flag == old(self).sustain_loop_flag,
    {
        let len: usize = self.len();
        self.volume = self.volume.clamp_unit();
        self.panning = self.panning.clamp_unit();
        self.finetune = self.finetune.clamp_signed();
        if self.relative_pitch < -95 {
            self.relative_pitch = -95;
        } else if self.relative_pitch > 96 {
            self.relative_pitch = 96;
        }
        if self.sustain_loop_start as usize > len {
            self.sustain_loop_start = 0;
        }
        if self.sustain_loop_start as u64 + self.sustain_loop_length as u64 > len as u64 {
            self.sustain_loop_length = len as u32 - self.sustain_loop_start;
        }
        if self.loop_start as usize > len {
            self.loop_start = 0;
        }
        if self.loop_start as u64 + self.loop_length as u64 > len as u64 {
            self.loop_length = len as u32 - self.loop_start;
        }
    }

    fn calculate_loop(&self, pos: usize, start: u32, length: u32, loop_type: LoopType) -> (r: usize)
        requires
            loop_is_playable(self.spec_len(), pos as int, start as int, length as int, loop_type),
        ensures
            r == spec_calculate_loop(
                self.spec_len(),
                pos as int,
                start as int,
                length as int,
                loop_type,
            ),
    {
        let position: u64 = pos as u64;
        let first: u64 = start as u64;
        let span: u64 = length as u64;
        let end: u64 = first + span;
        match loop_type {
            LoopType::No => {
                if pos < self.len() {
                    pos
                } else {
                    self.len() - 1
                }
            },
            LoopType::Forward => {
                if position < end {
                    pos
                } else {
                    (first + (position - first) % span) as usize
                }
            },
            LoopType::PingPong => {
                if position < end {
                    pos
                } else {
                    let total_length: u64 = 2 * span;
                    let mod_pos: u64 = (position - first) % total_length;
                    if mod_pos < span {
                        (first + mod_pos) as usize
                    } else {
                        (end - (mod_pos - span) - 1) as usize
                    }
                }
            },
        }
    }

    /// The frame that is played at position `pos`: by the sustain loop
    /// while the note is held and the sample has one, else by the loop.
    pub fn meta_seek(&self, pos: usize, sustain: bool) -> (r: usize)
        requires
            if sustain && self.sustain_loop_length != 0 {
                loop_is_playable(
                    self.spec_len(),
                    pos as int,
                    self.sustain_loop_start as int,
                    self.sustain_loop_length as int,
                    self.sustain_loop_flag,
                )
            } else {
                loop_is_playable(
                    self.spec_len(),
                    pos as int,
                    self.loop_start as int,
                    self.loop_length as int,
                    self.loop_flag,
                )
            },
        ensures
            r == (if sustain && self.sustain_loop_length != 0 {
                spec_calculate_loop(
                    self.spec_len(),
                    pos as int,
                    self.sustain_loop_start as int,
                    self.sustain_loop_length as int,
                    self.sustain_loop_flag,
                )
            } else {
                spec_calculate_loop(
                    self.spec_len(),
                    pos as int,
                    self.loop_start as int,
                    self.loop_length as int,
                    self.loop_flag,
                )
            }),
    {
        if sustain && self.sustain_loop_length != 0 {
            self.calculate_loop(
                pos,
                self.sustain_loop_start,
                self.sustain_loop_length,
                self.sustain_loop_flag,
            )
        } else {
            self.calculate_loop(pos, self.loop_start, self.loop_length, self.loop_flag)
        }
    }

    /// The number of bits of a value of the data, 0 without data.
    pub fn bits(&self) -> (r: u8)
        ensures
            r == (match self.data {
                Some(SampleDataType::Mono8(_)) => 8u8,
                Some(SampleDataType::Mono16(_)) => 16u8,
                Some(SampleDataType::Stereo8(_)) => 8u8,
                Some(SampleDataType::Stereo16(_)) => 16u8,
                None => 0u8,
            }),
    {
        match &self.data {
            Some(SampleDataType::Mono8(_)) => 8,
            Some(SampleDataType::Mono16(_)) => 16,
            Some(SampleDataType::Stereo8(_)) => 8,
            Some(SampleDataType::Stereo16(_)) => 16,
            None => 0,
        }
    }
}

} // verus!
