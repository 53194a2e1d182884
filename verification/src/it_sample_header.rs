use crate::amount::Amount;
use crate::error::DecodeError;
use crate::sample::{LoopType, SampleDataType, SampleDataView};
use crate::sample_codec::{full_range, spec_unpack, unpack};
use crate::vibrato::Vibrato;
use crate::waveform::Waveform;
use vstd::prelude::*;
use vstd::slice::slice_subrange;

verus! {

/// The header of a sample in an IT file ("IMPS").
pub struct ItSampleHeader {
    /// "IMPS"
    pub id: [u8; 4],
    /// Name of the DOS file.
    pub dos_filename: String,
    pub reserved_byte: u8,
    /// Global volume of the sample, 0 to 64.
    pub global_volume: u8,
    /// Bit 0: a sample belongs to the header. Bit 1: 16 bits, else 8.
    /// Bit 2: stereo. Bit 3: compressed. Bit 4: loop. Bit 5: sustain loop.
    /// Bit 6: ping-pong loop. Bit 7: ping-pong sustain loop.
    pub flags: u8,
    /// Default volume of the sample, 0 to 64.
    pub default_volume: u8,
    pub sample_name: String,
    /// Bit 0: signed samples. Bit 1: big endian. Bit 2: delta encoded, and
    /// double delta where compressed. Bit 3: byte delta. Bit 4: 12-bit
    /// TX-Wave. Bit 5: prompt for the stereo channels.
    pub convert_flags: u8,
    /// Bits 0 to 6: panning, 0 to 64. Bit 7: panning is used.
    pub default_pan: u8,
    /// Length of the sample in frames.
    pub sample_length: u32,
    pub loop_beginning: u32,
    pub loop_end: u32,
    /// Sample rate of the middle C.
    pub c5_speed: u32,
    pub sustain_loop_beginning: u32,
    pub sustain_loop_end: u32,
    /// Place of the sample data in the file.
    pub sample_pointer: u32,
    pub vibrato_speed: u8,
    pub vibrato_depth: u8,
    pub vibrato_sweep: u8,
    /// 0: sine. 1: ramp down. 2: square. 3: random.
    pub vibrato_waveform: u8,
}

/// Whether `byte` has a bit of `mask` set.
pub open spec fn has_bit(byte: u8, mask: u8) -> bool {
    byte & mask != 0
}

/// A value of 8 bits read as a signed number.
pub open spec fn as_signed_8(raw: u32) -> i8 {
    if raw >= 128 {
        (raw - 256) as i8
    } else {
        raw as i8
    }
}

/// A value of 16 bits read as a signed number.
pub open spec fn as_signed_16(raw: u32) -> i16 {
    if raw >= 32768 {
        (raw - 65536) as i16
    } else {
        raw as i16
    }
}

/// An 8-bit value with its top bit turned: unsigned data read as signed.
pub open spec fn flip_8(x: i8) -> i8 {
    if x < 0 {
        (x + 128) as i8
    } else {
        (x - 128) as i8
    }
}

/// A 16-bit value with its top bit turned: unsigned data read as signed.
pub open spec fn flip_16(x: i16) -> i16 {
    if x < 0 {
        (x + 32768) as i16
    } else {
        (x - 32768) as i16
    }
}

/// The place in split stereo data, left half then right half, of the value
/// that stands at place `i` once left and right take turns.
pub open spec fn interleaved_source(i: int, half: int) -> int {
    if i % 2 == 0 {
        i / 2
    } else {
        half + i / 2
    }
}

/// The 16-bit value of two bytes, the first one low unless `big_endian`.
pub open spec fn word_of(first: u8, second: u8, big_endian: bool) -> i16 {
    if big_endian {
        as_signed_16((first as int * 256 + second as int) as u32)
    } else {
        as_signed_16((second as int * 256 + first as int) as u32)
    }
}

impl ItSampleHeader {
    pub open spec fn spec_is_16bits(&self) -> bool {
        has_bit(self.flags, 0b0000_0010)
    }

    pub open spec fn spec_is_stereo(&self) -> bool {
        has_bit(self.flags, 0b0000_0100)
    }

    pub open spec fn spec_is_compressed(&self) -> bool {
        has_bit(self.flags, 0b0000_1000)
    }

    pub open spec fn spec_is_samples_signed(&self) -> bool {
        has_bit(self.convert_flags, 0b0000_0001)
    }

    pub open spec fn spec_is_samples_be(&self) -> bool {
        has_bit(self.convert_flags, 0b0000_0010)
    }

    pub open spec fn spec_is_double_delta_encoded(&self) -> bool {
        has_bit(self.convert_flags, 0b0000_0100)
    }

    /// The 8-bit samples as they are kept: the top bit turned where the
    /// data is unsigned, and left and right in turn where the data is
    /// stereo and came as a left half and a right half.
    pub open spec fn spec_convert_8bit(&self, p: Seq<i8>) -> Seq<i8> {
        let signed = self.spec_is_samples_signed();
        if self.spec_is_stereo() {
            let half = p.len() as int / 2;
            Seq::new(
                (2 * half) as nat,
                |i: int|
                    {
                        let x = p[interleaved_source(i, half)];
                        if signed {
                            x
                        } else {
                            flip_8(x)
                        }
                    },
            )
        } else {
            Seq::new(
                p.len(),
                |i: int|
                    if signed {
                        p[i]
                    } else {
                        flip_8(p[i])
                    },
            )
        }
    }

    /// The 16-bit samples as they are kept: the top bit turned where the
    /// data is unsigned, and left and right in turn where the data is
    /// stereo and came as a left half and a right half.
    pub open spec fn spec_convert_16bit(&self, p: Seq<i16>) -> Seq<i16> {
        let signed = self.spec_is_samples_signed();
        if self.spec_is_stereo() {
            let half = p.len() as int / 2;
            Seq::new(
                (2 * half) as nat,
                |i: int|
                    {
                        let x = p[interleaved_source(i, half)];
                        if signed {
                            x
                        } else {
                            flip_16(x)
                        }
                    },
            )
        } else {
            Seq::new(
                p.len(),
                |i: int|
                    if signed {
                        p[i]
                    } else {
                        flip_16(p[i])
                    },
            )
        }
    }

    /// The 16-bit values of pairs of bytes.
    pub open spec fn spec_words(&self, input: Seq<u8>) -> Seq<i16> {
        Seq::new(
            input.len() / 2,
            |i: int| word_of(input[2 * i], input[2 * i + 1], self.spec_is_samples_be()),
        )
    }

    /// The number of values that the sample holds: its length, twice for
    /// stereo.
    pub open spec fn spec_value_count(&self) -> int {
        if self.spec_is_stereo() {
            2 * self.sample_length
        } else {
            self.sample_length as int
        }
    }

    /// The sample data that `data` holds for this header.
    ///
    /// Compressed data is decoded by the bit stream codec. Plain data is
    /// taken from the start of `data`, one byte for a value of 8 bits and
    /// two for one of 16; it is an error where `data` is shorter than the
    /// sample.
    pub open spec fn spec_get_sample_data(&self, data: Seq<u8>) -> Result<
        SampleDataView,
        DecodeError,
    > {
        let count = self.spec_value_count();
        if count > usize::MAX {
            Err(DecodeError::MalformedField)
        } else if self.spec_is_compressed() {
            if self.spec_is_16bits() {
                match spec_unpack(data, 0, count, 16, self.spec_is_double_delta_encoded()) {
                    Ok(raw) => Ok(
                        self.wrap_16(
                            self.spec_convert_16bit(raw.map_values(|v: u32| as_signed_16(v))),
                        ),
                    ),
                    Err(e) => Err(e),
                }
            } else {
                match spec_unpack(data, 0, count, 8, self.spec_is_double_delta_encoded()) {
                    Ok(raw) => Ok(
                        self.wrap_8(self.spec_convert_8bit(raw.map_values(|v: u32| as_signed_8(v)))),
                    ),
                    Err(e) => Err(e),
                }
            }
        } else if self.spec_is_16bits() {
            if 2 * count > data.len() {
                Err(DecodeError::TruncatedInput)
            } else {
                Ok(
                    self.wrap_16(
                        self.spec_convert_16bit(self.spec_words(data.subrange(0, 2 * count))),
                    ),
                )
            }
        } else {
            if count > data.len() {
                Err(DecodeError::TruncatedInput)
            } else {
                Ok(
                    self.wrap_8(
                        self.spec_convert_8bit(
                            data.subrange(0, count).map_values(|b: u8| as_signed_8(b as u32)),
                        ),
                    ),
                )
            }
        }
    }

    /// 8-bit values as mono or stereo data, by the header.
    pub open spec fn wrap_8(&self, v: Seq<i8>) -> SampleDataView {
        if self.spec_is_stereo() {
            SampleDataView::Stereo8(v)
        } else {
            SampleDataView::Mono8(v)
        }
    }

    /// 16-bit values as mono or stereo data, by the header.
    pub open spec fn wrap_16(&self, v: Seq<i16>) -> SampleDataView {
        if self.spec_is_stereo() {
            SampleDataView::Stereo16(v)
        } else {
            SampleDataView::Mono16(v)
        }
    }

    /// The vibrato that the header describes: the waveform by its number,
    /// sine for a number that stands for none, and speed, depth and sweep in
    /// sixty-fourths.
    pub open spec fn spec_to_vibrato(&self) -> Vibrato {
        Vibrato {
            waveform: if self.vibrato_waveform == 1 {
                Waveform::TranslatedRampDown
            } else if self.vibrato_waveform == 2 {
                Waveform::TranslatedSquare
            } else if self.vibrato_waveform == 3 {
                Waveform::Random
            } else {
                Waveform::TranslatedSine
            },
            speed: Amount::spec_ratio(self.vibrato_speed as int, 64),
            depth: Amount::spec_ratio(self.vibrato_depth as int, 64),
            sweep: Amount::spec_ratio(self.vibrato_sweep as int, 64),
        }
    }

    pub fn is_associated_sample(&self) -> (r: bool)
        ensures
            r == has_bit(self.flags, 0b0000_0001),
    {
        self.flags & 0b0000_0001 != 0
    }

    pub fn is_16bits(&self) -> (r: bool)
        ensures
            r == self.spec_is_16bits(),
    {
        self.flags & 0b0000_0010 != 0
    }

    pub fn is_stereo(&self) -> (r: bool)
        ensures
            r == self.spec_is_stereo(),
    {
        self.flags & 0b0000_0100 != 0
    }

    pub fn is_compressed(&self) -> (r: bool)
        ensures
            r == self.spec_is_compressed(),
    {
        self.flags & 0b0000_1000 != 0
    }

    pub fn is_use_loop(&self) -> (r: bool)
        ensures
            r == has_bit(self.flags, 0b0001_0000),
    {
        self.flags & 0b0001_0000 != 0
    }

    pub fn is_use_sustain_loop(&self) -> (r: bool)
        ensures
            r == has_bit(self.flags, 0b0010_0000),
    {
        self.flags & 0b0010_0000 != 0
    }

    /// Whether the loop is used and runs back and forth.
    pub fn is_pingpong(&self) -> (r: bool)
        ensures
            r == (has_bit(self.flags, 0b0001_0000) && has_bit(self.flags, 0b0100_0000)),
    {
        self.is_use_loop() && self.flags & 0b0100_0000 != 0
    }

    /// Whether the sustain loop is used and runs back and forth.
    pub fn is_pingpong_sustain_loop(&self) -> (r: bool)
        ensures
            r == (has_bit(self.flags, 0b0010_0000) && has_bit(self.flags, 0b1000_0000)),
    {
        self.is_use_sustain_loop() && self.flags & 0b1000_0000 != 0
    }

    pub fn is_samples_signed(&self) -> (r: bool)
        ensures
            r == self.spec_is_samples_signed(),
    {
        self.convert_flags & 0b0000_0001 != 0
    }

    pub fn is_samples_be(&self) -> (r: bool)
        ensures
            r == self.spec_is_samples_be(),
    {
        self.convert_flags & 0b0000_0010 != 0
    }

    pub fn is_double_delta_encoded(&self) -> (r: bool)
        ensures
            r == self.spec_is_double_delta_encoded(),
    {
        self.convert_flags & 0b0000_0100 != 0
    }

    pub fn is_byte_delta_encoded(&self) -> (r: bool)
        ensures
            r == has_bit(self.convert_flags, 0b0000_1000),
    {
        self.convert_flags & 0b0000_1000 != 0
    }

    pub fn use_12bit_tx_wave(&self) -> (r: bool)
        ensures
            r == has_bit(self.convert_flags, 0b0001_0000),
    {
        self.convert_flags & 0b0001_0000 != 0
    }

    pub fn prompt_stereo(&self) -> (r: bool)
        ensures
            r == has_bit(self.convert_flags, 0b0010_0000),
    {
        self.convert_flags & 0b0010_0000 != 0
    }

    /// Reads pairs of bytes as 16-bit values. An odd number of bytes is
    /// refused.
    pub fn convert_u8_to_i16_vec(&self, input: &[u8]) -> (r: Result<Vec<i16>, DecodeError>)
        ensures
            input@.len() % 2 == 0 ==> r.is_ok() && r.unwrap()@ == self.spec_words(input@),
            input@.len() % 2 != 0 ==> r == Err::<Vec<i16>, DecodeError>(
                DecodeError::MalformedField,
            ),
    {
        if input.len() % 2 != 0 {
            return Err(DecodeError::MalformedField);
        }
        let big_endian = self.is_samples_be();
        let mut output: Vec<i16> = Vec::new();
        let mut i: usize = 0;
        while i < input.len() / 2
            invariant
                0 <= i <= input@.len() / 2,
                big_endian == self.spec_is_samples_be(),
                output@.len() == i,
                forall|k: int|
                    0 <= k < i ==> (#[trigger] output@[k]) == word_of(
                        input@[2 * k],
                        input@[2 * k + 1],
                        big_endian,
                    ),
            decreases input@.len() / 2 - i,
        {
            let first: u32 = input[2 * i] as u32;
            let second: u32 = input[2 * i + 1] as u32;
            let raw: u32 = if big_endian {
                first * 256 + second
            } else {
                second * 256 + first
            };
            let value: i16 = if raw >= 32768 {
                (raw as i32 - 65536) as i16
            } else {
                raw as i16
            };
            output.push(value);
            i += 1;
        }
        assert(output@ =~= self.spec_words(input@));
        Ok(output)
    }

    /// The 8-bit samples as they are kept.
    pub fn convert_8bit_sample(&self, p: &[i8]) -> (r: Vec<i8>)
        ensures
            r@ == self.spec_convert_8bit(p@),
    {
        let length = p.len();
        let mut dst: Vec<i8> = Vec::new();
        let signed = self.is_samples_signed();
        if self.is_stereo() {
            let half_length = length / 2;
            let mut i: usize = 0;
            while i < half_length
                invariant
                    0 <= i <= half_length,
                    half_length == p@.len() / 2,
                    signed == self.spec_is_samples_signed(),
                    dst@.len() == 2 * i,
                    forall|k: int|
                        0 <= k < 2 * i ==> (#[trigger] dst@[k]) == (if signed {
                            p@[interleaved_source(k, half_length as int)]
                        } else {
                            flip_8(p@[interleaved_source(k, half_length as int)])
                        }),
                decreases half_length - i,
            {
                let l = p[i];
                let r = p[half_length + i];
                dst.push(Self::kept_8(l, signed));
                dst.push(Self::kept_8(r, signed));
                i += 1;
            }
        } else {
            let mut i: usize = 0;
            while i < length
                invariant
                    0 <= i <= length,
                    length == p@.len(),
                    signed == self.spec_is_samples_signed(),
                    dst@.len() == i,
                    forall|k: int|
                        0 <= k < i ==> (#[trigger] dst@[k]) == (if signed {
                            p@[k]
                        } else {
                            flip_8(p@[k])
                        }),
                decreases length - i,
            {
                dst.push(Self::kept_8(p[i], signed));
                i += 1;
            }
        }
        assert(dst@ =~= self.spec_convert_8bit(p@));
        dst
    }

    /// The 16-bit samples as they are kept.
    pub fn convert_16bit_sample(&self, p: &[i16]) -> (r: Vec<i16>)
        ensures
            r@ == self.spec_convert_16bit(p@),
    {
        let length = p.len();
        let mut dst: Vec<i16> = Vec::new();
        let signed = self.is_samples_signed();
        if self.is_stereo() {
            let half_length = length / 2;
            let mut i: usize = 0;
            while i < half_length
                invariant
                    0 <= i <= half_length,
                    half_length == p@.len() / 2,
                    signed == self.spec_is_samples_signed(),
                    dst@.len() == 2 * i,
                    forall|k: int|
                        0 <= k < 2 * i ==> (#[trigger] dst@[k]) == (if signed {
                            p@[interleaved_source(k, half_length as int)]
                        } else {
                            flip_16(p@[interleaved_source(k, half_length as int)])
                        }),
                decreases half_length - i,
            {
                let l = p[i];
                let r = p[half_length + i];
                dst.push(Self::kept_16(l, signed));
                dst.push(Self::kept_16(r, signed));
                i += 1;
            }
        } else {
            let mut i: usize = 0;
            while i < length
                invariant
                    0 <= i <= length,
                    length == p@.len(),
                    signed == self.spec_is_samples_signed(),
                    dst@.len() == i,
                    forall|k: int|
                        0 <= k < i ==> (#[trigger] dst@[k]) == (if signed {
                            p@[k]
                        } else {
                            flip_16(p@[k])
                        }),
                decreases length - i,
            {
                dst.push(Self::kept_16(p[i], signed));
                i += 1;
            }
        }
        assert(dst@ =~= self.spec_convert_16bit(p@));
        dst
    }

    fn kept_8(x: i8, signed: bool) -> (r: i8)
        ensures
            r == (if signed {
                x
            } else {
                flip_8(x)
            }),
    {
        if signed {
            x
        } else if x < 0 {
            x + 127 + 1
        } else {
            x - 127 - 1
        }
    }

    fn kept_16(x: i16, signed: bool) -> (r: i16)
        ensures
            r == (if signed {
                x
            } else {
                flip_16(x)
            }),
    {
        if signed {
            x
        } else if x < 0 {
            x + 32767 + 1
        } else {
            x - 32767 - 1
        }
    }

    /// Decodes compressed 8-bit sample data into `output_len` values.
    pub fn it_unpack_8bit(&self, input: &[u8], output_len: usize) -> (r: Result<Vec<i8>, DecodeError>)
        ensures
            match spec_unpack(
                input@,
                0,
                output_len as int,
                8,
                self.spec_is_double_delta_encoded(),
            ) {
                Ok(raw) => {
                    &&& r.is_ok()
                    &&& r.unwrap()@ == raw.map_values(|v: u32| as_signed_8(v))
                    &&& r.unwrap()@.len() == output_len
                },
                Err(e) => r == Err::<Vec<i8>, DecodeError>(e),
            },
    {
        let raw = match unpack(input, output_len, 8, self.is_double_delta_encoded()) {
            Ok(raw) => raw,
            Err(e) => {
                return Err(e);
            },
        };
        let mut output: Vec<i8> = Vec::new();
        let mut i: usize = 0;
        while i < raw.len()
            invariant
                0 <= i <= raw.len(),
                forall|k: int| 0 <= k < raw@.len() ==> (#[trigger] raw@[k]) < full_range(8),
                output@.len() == i,
                forall|k: int| 0 <= k < i ==> (#[trigger] output@[k]) == as_signed_8(raw@[k]),
            decreases raw.len() - i,
        {
            let v: u32 = raw[i];
            let value: i8 = if v >= 128 {
                (v as i32 - 256) as i8
            } else {
                v as i8
            };
            output.push(value);
            i += 1;
        }
        assert(output@ =~= raw@.map_values(|v: u32| as_signed_8(v)));
        Ok(output)
    }

    /// Decodes compressed 16-bit sample data into `output_len` values.
    pub fn it_unpack_16bit(&self, input: &[u8], output_len: usize) -> (r: Result<
        Vec<i16>,
        DecodeError,
    >)
        ensures
            match spec_unpack(
                input@,
                0,
                output_len as int,
                16,
                self.spec_is_double_delta_encoded(),
            ) {
                Ok(raw) => {
                    &&& r.is_ok()
                    &&& r.unwrap()@ == raw.map_values(|v: u32| as_signed_16(v))
                    &&& r.unwrap()@.len() == output_len
                },
                Err(e) => r == Err::<Vec<i16>, DecodeError>(e),
            },
    {
        let raw = match unpack(input, output_len, 16, self.is_double_delta_encoded()) {
            Ok(raw) => raw,
            Err(e) => {
                return Err(e);
            },
        };
        let mut output: Vec<i16> = Vec::new();
        let mut i: usize = 0;
        while i < raw.len()
            invariant
                0 <= i <= raw.len(),
                forall|k: int| 0 <= k < raw@.len() ==> (#[trigger] raw@[k]) < full_range(16),
                output@.len() == i,
                forall|k: int| 0 <= k < i ==> (#[trigger] output@[k]) == as_signed_16(raw@[k]),
            decreases raw.len() - i,
        {
            let v: u32 = raw[i];
            let value: i16 = if v >= 32768 {
                (v as i32 - 65536) as i16
            } else {
                v as i16
            };
            output.push(value);
            i += 1;
        }
        assert(output@ =~= raw@.map_values(|v: u32| as_signed_16(v)));
        Ok(output)
    }

    fn bytes_as_signed(data: &[u8]) -> (r: Vec<i8>)
        ensures
            r@ == data@.map_values(|b: u8| as_signed_8(b as u32)),
    {
        let mut output: Vec<i8> = Vec::new();
        let mut i: usize = 0;
        while i < data.len()
            invariant
                0 <= i <= data.len(),
                output@.len() == i,
                forall|k: int| 0 <= k < i ==> (#[trigger] output@[k]) == as_signed_8(data@[k] as u32),
            decreases data.len() - i,
        {
            let v: u8 = data[i];
            let value: i8 = if v >= 128 {
                (v as i32 - 256) as i8
            } else {
                v as i8
            };
            output.push(value);
            i += 1;
        }
        assert(output@ =~= data@.map_values(|b: u8| as_signed_8(b as u32)));
        output
    }

    /// Reads the sample data that `data` holds for this header, from its
    /// start.
    pub fn get_sample_data(&self, data: &[u8]) -> (r: Result<SampleDataType, DecodeError>)
        ensures
            match self.spec_get_sample_data(data@) {
                Ok(view) => r.is_ok() && r.unwrap()@ == view && view.frames() == self.sample_length,
                Err(e) => r.is_err() && r.unwrap_err() == e,
            },
    {
        let stereo = self.is_stereo();
        let count64: u64 = if stereo {
            2 * (self.sample_length as u64)
        } else {
            self.sample_length as u64
        };
        if count64 > usize::MAX as u64 {
            return Err(DecodeError::MalformedField);
        }
        let count: usize = count64 as usize;
        if self.is_compressed() {
            if self.is_16bits() {
                let output = match self.it_unpack_16bit(data, count) {
                    Ok(v) => v,
                    Err(e) => {
                        return Err(e);
                    },
                };
                let kept = self.convert_16bit_sample(output.as_slice());
                if stereo {
                    Ok(SampleDataType::Stereo16(kept))
                } else {
                    Ok(SampleDataType::Mono16(kept))
                }
            } else {
                let output = match self.it_unpack_8bit(data, count) {
                    Ok(v) => v,
                    Err(e) => {
                        return Err(e);
                    },
                };
                let kept = self.convert_8bit_sample(output.as_slice());
                if stereo {
                    Ok(SampleDataType::Stereo8(kept))
                } else {
                    Ok(SampleDataType::Mono8(kept))
                }
            }
        } else if self.is_16bits() {
            if data.len() / 2 < count {
                return Err(DecodeError::TruncatedInput);
            }
            let words = match self.convert_u8_to_i16_vec(slice_subrange(data, 0, 2 * count)) {
                Ok(v) => v,
                Err(e) => {
                    return Err(e);
                },
            };
            let kept = self.convert_16bit_sample(words.as_slice());
            if stereo {
                Ok(SampleDataType::Stereo16(kept))
            } else {
                Ok(SampleDataType::Mono16(kept))
            }
        } else {
            if data.len() < count {
                return Err(DecodeError::TruncatedInput);
            }
            let src = Self::bytes_as_signed(slice_subrange(data, 0, count));
            let kept = self.convert_8bit_sample(src.as_slice());
            if stereo {
                Ok(SampleDataType::Stereo8(kept))
            } else {
                Ok(SampleDataType::Mono8(kept))
            }
        }
    }

    /// The vibrato that the header describes.
    pub fn to_vibrato(&self) -> (r: Vibrato)
        ensures
            r == self.spec_to_vibrato(),
    {
        let wf = match self.vibrato_waveform {
            1 => Waveform::TranslatedRampDown,
            2 => Waveform::TranslatedSquare,
            3 => Waveform::Random,
            _ => Waveform::TranslatedSine,
        };
        Vibrato {
            waveform: wf,
            speed: Amount::ratio(self.vibrato_speed as i32, 64),
            depth: Amount::ratio(self.vibrato_depth as i32, 64),
            sweep: Amount::ratio(self.vibrato_sweep as i32, 64),
        }
    }

    /// How the sample loops: back and forth, forward, or not at all.
    pub fn loop_flag(&self) -> (r: LoopType)
        ensures
            r == (if has_bit(self.flags, 0b0001_0000) && has_bit(self.flags, 0b0100_0000) {
                LoopType::PingPong
            } else if has_bit(self.flags, 0b0001_0000) {
                LoopType::Forward
            } else {
                LoopType::No
            }),
    {
        if self.is_pingpong() {
            LoopType::PingPong
        } else if self.is_use_loop() {
            LoopType::Forward
        } else {
            LoopType::No
        }
    }

    /// How the sample loops while the note is held.
    pub fn sustain_loop_flag(&self) -> (r: LoopType)
        ensures
            r == (if has_bit(self.flags, 0b0010_0000) && has_bit(self.flags, 0b1000_0000) {
                LoopType::PingPong
            } else if has_bit(self.flags, 0b0010_0000) {
                LoopType::Forward
            } else {
                LoopType::No
            }),
    {
        if self.is_pingpong_sustain_loop() {
            LoopType::PingPong
        } else if self.is_use_sustain_loop() {
            LoopType::Forward
        } else {
            LoopType::No
        }
    }

    /// The length of the loop: from its beginning to its end, 0 where the
    /// end lies before the beginning.
    pub fn loop_length(&self) -> (r: u32)
        ensures
            r == (if self.loop_end < self.loop_beginning {
                0
            } else {
                self.loop_end - self.loop_beginning
            }),
    {
        if self.loop_end < self.loop_beginning {
            0
        } else {
            self.loop_end - self.loop_beginning
        }
    }

    /// The length of the sustain loop: from its beginning to its end, 0
    /// where the end lies before the beginning.
    pub fn sustain_loop_length(&self) -> (r: u32)
        ensures
            r == (if self.sustain_loop_end < self.sustain_loop_beginning {
                0
            } else {
                self.sustain_loop_end - self.sustain_loop_beginning
            }),
    {
        if self.sustain_loop_end < self.sustain_loop_beginning {
            0
        } else {
            self.sustain_loop_end - self.sustain_loop_beginning
        }
    }

    /// The volume of the sample: its global volume in sixty-fourths.
    pub fn volume(&self) -> (r: Amount)
        ensures
            r == Amount::spec_ratio(self.global_volume as int, 64),
    {
        Amount::ratio(self.global_volume as i32, 64)
    }

    /// The panning of the sample: the panning byte in sixty-fourths where
    /// its top bit says that panning is used, else the middle.
    pub fn panning(&self) -> (r: Amount)
        ensures
            r == (if has_bit(self.default_pan, 0x80) {
                Amount::spec_ratio(self.default_pan as int, 64)
            } else {
                Amount::spec_ratio(1, 2)
            }),
    {
        if self.default_pan & 0x80 != 0 {
            Amount::ratio(self.default_pan as i32, 64)
        } else {
            Amount::ratio(1, 2)
        }
    }
}

} // verus!
