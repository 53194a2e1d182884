//! The bit stream codec of compressed IT samples.
//!
//! A compressed sample is a run of blocks. Each block starts with its length
//! in bytes, 16 bits with the low byte first, and holds a bit stream that is
//! read with a width that the stream itself changes. Every block starts
//! anew: width one more than the sample depth, both sums at 0.

use crate::bitreader::{bits_value, BitReader};
use crate::error::DecodeError;
use vstd::prelude::*;
use vstd::slice::slice_subrange;

verus! {

/// What the decoder of a block carries from one sample to the next.
#[derive(Clone, Copy, Debug, PartialEq, Eq, Structural)]
pub struct CodecState {
    /// The number of bits of the next read.
    pub width: u8,
    /// The running sum of the decoded values, modulo the range of a sample.
    pub delta: u32,
    /// The running sum of the running sums, modulo the range of a sample.
    pub double_delta: u32,
}

/// What one step of the decoder does.
pub enum CodecStep {
    /// The block is broken.
    Fail(DecodeError),
    /// `used` bits were read. The step left the state `state`, and it gave
    /// the sample `sample` unless it only changed the width.
    Next { used: int, state: CodecState, sample: Option<u32> },
}

/// Two to the power `k`, for `k` up to 17; 0 beyond.
pub open spec fn spec_two_pow(k: int) -> u32 {
    if k == 0 {
        1
    } else if k == 1 {
        2
    } else if k == 2 {
        4
    } else if k == 3 {
        8
    } else if k == 4 {
        16
    } else if k == 5 {
        32
    } else if k == 6 {
        64
    } else if k == 7 {
        128
    } else if k == 8 {
        256
    } else if k == 9 {
        512
    } else if k == 10 {
        1024
    } else if k == 11 {
        2048
    } else if k == 12 {
        4096
    } else if k == 13 {
        8192
    } else if k == 14 {
        16384
    } else if k == 15 {
        32768
    } else if k == 16 {
        65536
    } else if k == 17 {
        131072
    } else {
        0
    }
}

/// The number of values of a sample of `depth` bits.
pub open spec fn full_range(depth: u8) -> u32 {
    spec_two_pow(depth as int)
}

/// The most samples that one block holds: 0x8000 at 8 bits, 0x4000 at 16.
pub open spec fn block_cap(depth: u8) -> int {
    if depth == 8 {
        0x8000
    } else {
        0x4000
    }
}

/// The number of bits that give the new width after the mark of a narrow
/// width: 3 at 8 bits, 4 at 16.
pub open spec fn escape_bits(depth: u8) -> u8 {
    if depth == 8 {
        3
    } else {
        4
    }
}

/// The state at the start of a block.
pub open spec fn initial_state(depth: u8) -> CodecState {
    CodecState { width: (depth + 1) as u8, delta: 0, double_delta: 0 }
}

/// The highest number that changes a middle width `w` (7 up to the depth):
/// the largest number of `w - 1` bits, plus half the depth.
pub open spec fn window_high(w: u8, depth: u8) -> int {
    spec_two_pow(w - 1) - 1 + depth / 2
}

/// The number below the lowest that changes a middle width `w`.
pub open spec fn window_low(w: u8, depth: u8) -> int {
    window_high(w, depth) - depth
}

/// The value of `bits`, read as a signed number of `w` bits, in the two's
/// complement of `depth` bits. A width from the depth on is taken as it is.
pub open spec fn sign_extended(bits: u32, w: u8, depth: u8) -> int {
    if w < depth && bits >= spec_two_pow(w - 1) {
        (bits + full_range(depth) - spec_two_pow(w as int)) % (full_range(depth) as int)
    } else {
        bits as int
    }
}

/// One step of the decoder at bit `pos` of the block `data`.
///
/// It reads `width` bits. Then, by the width:
/// - below 7, the number with only the top bit set is a mark: the next 3 or
///   4 bits, plus one, are the new width, or plus two where that would not
///   be below the old width;
/// - from 7 up to the depth, a number in the window above `window_low` up
///   to `window_high` gives the new width: its distance from `window_low`,
///   or one more where that would not be below the old width;
/// - at the depth plus one, a number with the top bit set gives the new
///   width: the number plus one, modulo 256;
/// - beyond that, the sample is 0 and the state stays.
/// Any other number is a value: it is added to the running sum, the running
/// sum to the double sum, and the sample is the double sum where `double` is
/// set, else the running sum.
pub open spec fn spec_codec_step(
    data: Seq<u8>,
    pos: int,
    st: CodecState,
    depth: u8,
    double: bool,
) -> CodecStep {
    let w = st.width;
    let full = full_range(depth) as int;
    if w == 0 || w > 32 {
        CodecStep::Fail(DecodeError::MalformedField)
    } else if pos + w > 8 * data.len() {
        CodecStep::Fail(DecodeError::DecodeExhaustion)
    } else {
        let bits = bits_value(data, pos, w as int);
        if w < 7 && bits == spec_two_pow(w - 1) {
            let extra = escape_bits(depth);
            if pos + w + extra > 8 * data.len() {
                CodecStep::Fail(DecodeError::DecodeExhaustion)
            } else {
                let b = bits_value(data, pos + w, extra as int);
                CodecStep::Next {
                    used: w + extra,
                    state: CodecState {
                        width: if b + 1 < w {
                            (b + 1) as u8
                        } else {
                            (b + 2) as u8
                        },
                        ..st
                    },
                    sample: None,
                }
            }
        } else if 7 <= w <= depth && window_low(w, depth) < bits <= window_high(w, depth) {
            let nb = bits - window_low(w, depth);
            CodecStep::Next {
                used: w as int,
                state: CodecState {
                    width: if nb < w {
                        nb as u8
                    } else {
                        (nb + 1) as u8
                    },
                    ..st
                },
                sample: None,
            }
        } else if w >= depth + 2 {
            CodecStep::Next { used: w as int, state: st, sample: Some(0u32) }
        } else if w == depth + 1 && bits >= full {
            CodecStep::Next {
                used: w as int,
                state: CodecState { width: ((bits + 1) % 256) as u8, ..st },
                sample: None,
            }
        } else {
            let delta = ((st.delta + sign_extended(bits, w, depth)) % full) as u32;
            let double_delta = ((st.double_delta + delta) % full) as u32;
            CodecStep::Next {
                used: w as int,
                state: CodecState { width: w, delta, double_delta },
                sample: Some(
                    if double {
                        double_delta
                    } else {
                        delta
                    },
                ),
            }
        }
    }
}

/// The samples that the block `data` gives from bit `pos` on, in the state
/// `st`, when it has given `emitted` samples and `room` more are wanted.
/// The block ends where its bits end, where it has given as many samples as
/// a block holds, or where no more are wanted.
pub open spec fn spec_unpack_block(
    data: Seq<u8>,
    pos: int,
    st: CodecState,
    emitted: int,
    room: int,
    depth: u8,
    double: bool,
) -> Result<Seq<u32>, DecodeError>
    decreases 8 * data.len() - pos,
{
    if pos >= 8 * data.len() || emitted >= block_cap(depth) || room <= 0 {
        Ok(Seq::empty())
    } else {
        match spec_codec_step(data, pos, st, depth, double) {
            CodecStep::Fail(e) => Err(e),
            CodecStep::Next { used, state, sample } => {
                if used <= 0 {
                    Err(DecodeError::MalformedField)
                } else {
                    match sample {
                        Some(v) => match spec_unpack_block(
                            data,
                            pos + used,
                            state,
                            emitted + 1,
                            room - 1,
                            depth,
                            double,
                        ) {
                            Ok(rest) => Ok(seq![v] + rest),
                            Err(e) => Err(e),
                        },
                        None => spec_unpack_block(
                            data,
                            pos + used,
                            state,
                            emitted,
                            room,
                            depth,
                            double,
                        ),
                    }
                }
            },
        }
    }
}

/// The length of the block whose header stands at `at`.
pub open spec fn block_len_at(input: Seq<u8>, at: int) -> int {
    input[at] as int + 256 * (input[at + 1] as int)
}

/// The samples that the blocks of `input` from byte `at` on give, when
/// `room` samples are wanted. Blocks are read as long as samples are wanted;
/// a header or a block that `input` does not hold in full is an error.
pub open spec fn spec_unpack(input: Seq<u8>, at: int, room: int, depth: u8, double: bool) -> Result<
    Seq<u32>,
    DecodeError,
>
    decreases input.len() - at,
{
    if room <= 0 {
        Ok(Seq::empty())
    } else if at < 0 || input.len() - at < 2 {
        Err(DecodeError::TruncatedInput)
    } else if input.len() - at - 2 < block_len_at(input, at) {
        Err(DecodeError::TruncatedInput)
    } else {
        let end = at + 2 + block_len_at(input, at);
        match spec_unpack_block(
            input.subrange(at + 2, end),
            0,
            initial_state(depth),
            0,
            room,
            depth,
            double,
        ) {
            Err(e) => Err(e),
            Ok(samples) => match spec_unpack(input, end, room - samples.len(), depth, double) {
                Ok(rest) => Ok(samples + rest),
                Err(e) => Err(e),
            },
        }
    }
}

/// A result with the samples `front` put before those it holds.
pub open spec fn prepend(front: Seq<u32>, r: Result<Seq<u32>, DecodeError>) -> Result<
    Seq<u32>,
    DecodeError,
> {
    match r {
        Ok(rest) => Ok(front + rest),
        Err(e) => Err(e),
    }
}

/// Two to the power `k`.
pub fn two_pow(k: u8) -> (r: u32)
    requires
        k <= 17,
    ensures
        r == spec_two_pow(k as int),
        r >= 1,
{
    let mut r: u32 = 1;
    let mut i: u8 = 0;
    while i < k
        invariant
            0 <= i <= k <= 17,
            r == spec_two_pow(i as int),
        decreases k - i,
    {
        r = r * 2;
        i += 1;
    }
    r
}

/// Makes one step of the decoder on the reader of a block.
pub fn codec_step(reader: &mut BitReader, st: CodecState, depth: u8, double: bool) -> (r: Result<
    (CodecState, Option<u32>),
    DecodeError,
>)
    requires
        old(reader).wf(),
        depth == 8 || depth == 16,
        st.delta < full_range(depth),
        st.double_delta < full_range(depth),
    ensures
        final(reader).wf(),
        final(reader).data_view() == old(reader).data_view(),
        match spec_codec_step(old(reader).data_view(), old(reader).position(), st, depth, double) {
            CodecStep::Fail(e) => r == Err::<(CodecState, Option<u32>), DecodeError>(e),
            CodecStep::Next { used, state, sample } => r == Ok::<
                (CodecState, Option<u32>),
                DecodeError,
            >((state, sample)) && final(reader).position() == old(reader).position() + used
                && used >= 1 && state.delta < full_range(depth) && state.double_delta
                < full_range(depth) && (sample.is_some() ==> sample.unwrap() < full_range(depth)),
        },
{
    let w: u8 = st.width;
    let full: u64 = two_pow(depth) as u64;
    if w == 0 || w > 32 {
        return Err(DecodeError::MalformedField);
    }
    let bits: u32 = match reader.read_bits(w) {
        Some(b) => b,
        None => {
            return Err(DecodeError::DecodeExhaustion);
        },
    };
    if w < 7 && bits == two_pow(w - 1) {
        // a mark: the new width follows
        let extra: u8 = if depth == 8 {
            3
        } else {
            4
        };
        let b: u32 = match reader.read_bits(extra) {
            Some(b) => b,
            None => {
                return Err(DecodeError::DecodeExhaustion);
            },
        };
        proof {
            crate::bitreader::lemma_bits_value_bound(
                old(reader).data_view(),
                old(reader).position() + w,
                extra as int,
            );
            let sh = extra as u32;
            assert(b < 16) by (bit_vector)
                requires
                    b >> sh == 0,
                    sh == 3 || sh == 4,
            ;
        }
        let width: u8 = if b + 1 < w as u32 {
            (b + 1) as u8
        } else {
            (b + 2) as u8
        };
        return Ok((CodecState { width, ..st }, None));
    }
    if 7 <= w && w <= depth {
        let high: u32 = two_pow(w - 1) - 1 + (depth as u32) / 2;
        let low: u32 = high - depth as u32;
        if low < bits && bits <= high {
            let nb: u32 = bits - low;
            let width: u8 = if nb < w as u32 {
                nb as u8
            } else {
                (nb + 1) as u8
            };
            return Ok((CodecState { width, ..st }, None));
        }
    }
    if w >= depth + 2 {
        return Ok((st, Some(0)));
    }
    if w == depth + 1 && bits as u64 >= full {
        let width: u8 = ((bits as u64 + 1) % 256) as u8;
        return Ok((CodecState { width, ..st }, None));
    }
    let value: u64 = if w < depth && bits >= two_pow(w - 1) {
        (bits as u64 + full - two_pow(w) as u64) % full
    } else {
        bits as u64
    };
    let delta: u32 = ((st.delta as u64 + value) % full) as u32;
    let double_delta: u32 = ((st.double_delta as u64 + delta as u64) % full) as u32;
    Ok(
        (
            CodecState { width: w, delta, double_delta },
            Some(
                if double {
                    double_delta
                } else {
                    delta
                },
            ),
        ),
    )
}

/// Decodes one block into `output`, which is to hold `output_len` samples
/// when the whole stream is decoded.
pub fn unpack_block(block: &[u8], output: &mut Vec<u32>, output_len: usize, depth: u8, double: bool) -> (r:
    Result<(), DecodeError>)
    requires
        depth == 8 || depth == 16,
        old(output)@.len() <= output_len,
    ensures
        match spec_unpack_block(
            block@,
            0,
            initial_state(depth),
            0,
            output_len - old(output)@.len(),
            depth,
            double,
        ) {
            Ok(samples) => {
                &&& r.is_ok()
                &&& final(output)@ == old(output)@ + samples
                &&& final(output)@.len() <= output_len
                &&& forall|i: int|
                    0 <= i < samples.len() ==> (#[trigger] samples[i]) < full_range(depth)
            },
            Err(e) => r == Err::<(), DecodeError>(e),
        },
{
    let mut reader = BitReader::new(block);
    let mut st = CodecState { width: depth + 1, delta: 0, double_delta: 0 };
    let mut block_output_len: usize = 0;
    let cap: usize = if depth == 8 {
        0x8000
    } else {
        0x4000
    };
    let ghost room0 = output_len - old(output)@.len();
    let ghost whole = spec_unpack_block(block@, 0, initial_state(depth), 0, room0, depth, double);
    proof {
        assert(output@.subrange(0, output@.len() as int) =~= output@);
        assert(output@.subrange(output@.len() as int, output@.len() as int) =~= Seq::<u32>::empty());
        match whole {
            Ok(all) => {
                assert(Seq::<u32>::empty() + all =~= all);
            },
            Err(_) => {},
        }
    }
    loop
        invariant
            reader.wf(),
            reader.data_view() == block@,
            depth == 8 || depth == 16,
            cap == block_cap(depth),
            st.delta < full_range(depth),
            st.double_delta < full_range(depth),
            0 <= block_output_len <= cap,
            output@.len() == old(output)@.len() + block_output_len,
            output@.len() <= output_len,
            output@.subrange(0, old(output)@.len() as int) == old(output)@,
            forall|i: int|
                old(output)@.len() <= i < output@.len() ==> (#[trigger] output@[i]) < full_range(
                    depth,
                ),
            room0 == output_len - old(output)@.len(),
            whole == spec_unpack_block(block@, 0, initial_state(depth), 0, room0, depth, double),
            whole == prepend(
                output@.subrange(old(output)@.len() as int, output@.len() as int),
                spec_unpack_block(
                    block@,
                    reader.position(),
                    st,
                    block_output_len as int,
                    output_len - output@.len(),
                    depth,
                    double,
                ),
            ),
        ensures
            whole == Ok::<Seq<u32>, DecodeError>(
                output@.subrange(old(output)@.len() as int, output@.len() as int),
            ),
            output@.len() <= output_len,
            output@.subrange(0, old(output)@.len() as int) == old(output)@,
            forall|i: int|
                old(output)@.len() <= i < output@.len() ==> (#[trigger] output@[i]) < full_range(
                    depth,
                ),
        decreases 8 * block@.len() - reader.position(),
    {
        proof {
            reader.lemma_position_bounds();
        }
        let ghost emitted_before = output@.subrange(old(output)@.len() as int, output@.len() as int);
        if reader.is_empty() || block_output_len == cap || output.len() >= output_len {
            proof {
                assert(emitted_before + Seq::<u32>::empty() =~= emitted_before);
            }
            break ;
        }
        match codec_step(&mut reader, st, depth, double) {
            Err(e) => {
                return Err(e);
            },
            Ok((state, sample)) => {
                st = state;
                match sample {
                    Some(v) => {
                        let ghost pushed_on = output@;
                        output.push(v);
                        block_output_len += 1;
                        proof {
                            assert(output@.subrange(0, old(output)@.len() as int)
                                =~= pushed_on.subrange(0, old(output)@.len() as int));
                            let rest = spec_unpack_block(
                                block@,
                                reader.position(),
                                st,
                                block_output_len as int,
                                output_len - output@.len(),
                                depth,
                                double,
                            );
                            let now = output@.subrange(
                                old(output)@.len() as int,
                                output@.len() as int,
                            );
                            assert(now =~= emitted_before + seq![v]);
                            match rest {
                                Ok(more) => {
                                    assert(emitted_before + (seq![v] + more) =~= now + more);
                                },
                                Err(_) => {},
                            }
                        }
                    },
                    None => {},
                }
            },
        }
    }
    proof {
        assert(output@ =~= old(output)@ + output@.subrange(
            old(output)@.len() as int,
            output@.len() as int,
        ));
    }
    Ok(())
}

/// Decodes the blocks of `input` until `output_len` samples are there.
pub fn unpack(input: &[u8], output_len: usize, depth: u8, double: bool) -> (r: Result<
    Vec<u32>,
    DecodeError,
>)
    requires
        depth == 8 || depth == 16,
    ensures
        match spec_unpack(input@, 0, output_len as int, depth, double) {
            Ok(samples) => {
                &&& r.is_ok()
                &&& r.unwrap()@ == samples
                &&& samples.len() == output_len
                &&& forall|i: int|
                    0 <= i < samples.len() ==> (#[trigger] samples[i]) < full_range(depth)
            },
            Err(e) => r == Err::<Vec<u32>, DecodeError>(e),
        },
{
    let mut output: Vec<u32> = Vec::new();
    let mut at: usize = 0;
    let ghost whole = spec_unpack(input@, 0, output_len as int, depth, double);
    while output.len() < output_len
        invariant
            0 <= at <= input@.len(),
            depth == 8 || depth == 16,
            output@.len() <= output_len,
            forall|i: int| 0 <= i < output@.len() ==> (#[trigger] output@[i]) < full_range(depth),
            whole == spec_unpack(input@, 0, output_len as int, depth, double),
            whole == prepend(
                output@,
                spec_unpack(input@, at as int, output_len - output@.len(), depth, double),
            ),
        decreases input@.len() - at,
    {
        if input.len() - at < 2 {
            return Err(DecodeError::TruncatedInput);
        }
        let block_len: usize = input[at] as usize + 256 * (input[at + 1] as usize);
        if input.len() - at - 2 < block_len {
            return Err(DecodeError::TruncatedInput);
        }
        let end: usize = at + 2 + block_len;
        let block = slice_subrange(input, at + 2, end);
        let ghost before = output@;
        match unpack_block(block, &mut output, output_len, depth, double) {
            Err(e) => {
                return Err(e);
            },
            Ok(()) => {},
        }
        proof {
            let samples = spec_unpack_block(
                block@,
                0,
                initial_state(depth),
                0,
                output_len - before.len(),
                depth,
                double,
            ).unwrap();
            let rest = spec_unpack(input@, end as int, output_len - output@.len(), depth, double);
            match rest {
                Ok(more) => {
                    assert(before + (samples + more) =~= output@ + more);
                },
                Err(_) => {},
            }
            assert forall|i: int| 0 <= i < output@.len() implies (#[trigger] output@[i])
                < full_range(depth) by {
                if i >= before.len() {
                    assert(output@[i] == samples[i - before.len()]);
                } else {
                    assert(output@[i] == before[i]);
                }
            }
        }
        at = end;
    }
    proof {
        assert(output@ + Seq::<u32>::empty() =~= output@);
    }
    Ok(output)
}

/// Whether `outcome` is what decoding `input` into `output_len` samples
/// gives: the samples, or the error.
pub open spec fn is_outcome_of_unpack(
    input: Seq<u8>,
    output_len: int,
    depth: u8,
    double: bool,
    outcome: Result<Seq<u32>, DecodeError>,
) -> bool {
    outcome == spec_unpack(input, 0, output_len, depth, double)
}

/// Decoding is determined by the data: two outcomes of decoding the same
/// bytes into the same number of samples, at the same depth and with the
/// same flag, are the same.
pub proof fn lemma_unpack_is_determined(
    input: Seq<u8>,
    output_len: int,
    depth: u8,
    double: bool,
    first: Result<Seq<u32>, DecodeError>,
    second: Result<Seq<u32>, DecodeError>,
)
    requires
        is_outcome_of_unpack(input, output_len, depth, double, first),
        is_outcome_of_unpack(input, output_len, depth, double, second),
    ensures
        first == second,
{
}

} // verus!
