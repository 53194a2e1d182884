//! The tables of an IT file: the offsets of its parts, and the parts that
//! the offsets lead to.

use crate::error::DecodeError;
use crate::it_pattern::{spec_load_it_pattern, spec_unpack_it_pattern, ItPattern};
use crate::it_sample_header::ItSampleHeader;
use crate::patternslot::PatternSlot;
use crate::sample::{SampleDataType, SampleDataView};
use vstd::prelude::*;
use vstd::slice::slice_subrange;

verus! {

/// The number that the four bytes at `at` stand for, the low byte first.
pub open spec fn le32_at(data: Seq<u8>, at: int) -> u32 {
    (data[at] as int + 256 * data[at + 1] as int + 65536 * data[at + 2] as int + 16777216
        * data[at + 3] as int) as u32
}

/// The rows of the pattern that the offset `offset` leads to in the file
/// `ser`. The offset 0 stands for a pattern that the file does not hold: one
/// row without cells. An offset beyond the file is an error.
pub open spec fn spec_pattern_at_offset(ser: Seq<u8>, offset: u32) -> Result<
    Seq<Seq<PatternSlot>>,
    DecodeError,
> {
    if offset > ser.len() {
        Err(DecodeError::TruncatedInput)
    } else if offset == 0 {
        Ok(seq![Seq::<PatternSlot>::empty()])
    } else {
        match spec_load_it_pattern(ser.subrange(offset as int, ser.len() as int)) {
            Err(e) => Err(e),
            Ok((length, rows, reserved, data)) => spec_unpack_it_pattern(rows as i16, data),
        }
    }
}

/// The data of the sample of the header `header` in the file `ser`: none
/// where no sample belongs to the header, or where the sample has no
/// frames. A sample pointer beyond the file is an error.
pub open spec fn spec_sample_of(ser: Seq<u8>, header: &ItSampleHeader) -> Result<
    Option<SampleDataView>,
    DecodeError,
> {
    if !crate::it_sample_header::has_bit(header.flags, 1) {
        Ok(None)
    } else if header.sample_pointer > ser.len() {
        Err(DecodeError::TruncatedInput)
    } else {
        match header.spec_get_sample_data(
            ser.subrange(header.sample_pointer as int, ser.len() as int),
        ) {
            Err(e) => Err(e),
            Ok(view) => if view.frames() != 0 {
                Ok(Some(view))
            } else {
                Ok(None)
            },
        }
    }
}

/// What an optional sample holds.
pub open spec fn sample_view(s: Option<SampleDataType>) -> Option<SampleDataView> {
    match s {
        Some(d) => Some(d@),
        None => None,
    }
}

/// Reads a table of `count` offsets of four bytes each at the start of
/// `data`.
pub fn read_offsets(data: &[u8], count: usize) -> (r: Result<Vec<u32>, DecodeError>)
    ensures
        data@.len() < 4 * count ==> r.is_err() && r.unwrap_err() == DecodeError::TruncatedInput,
        data@.len() >= 4 * count ==> r.is_ok() && r.unwrap()@ == Seq::new(
            count as nat,
            |i: int| le32_at(data@, 4 * i),
        ),
{
    if data.len() / 4 < count {
        return Err(DecodeError::TruncatedInput);
    }
    let mut offsets: Vec<u32> = Vec::new();
    let mut i: usize = 0;
    while i < count
        invariant
            0 <= i <= count,
            4 * count <= data.len(),
            offsets@.len() == i,
            forall|k: int| 0 <= k < i ==> (#[trigger] offsets@[k]) == le32_at(data@, 4 * k),
        decreases count - i,
    {
        let at: usize = 4 * i;
        let v: u32 = (data[at] as u32 + 256 * (data[at + 1] as u32)) + 65536 * (data[at + 2] as u32
            + 256 * (data[at + 3] as u32));
        offsets.push(v);
        i += 1;
    }
    assert(offsets@ =~= Seq::new(count as nat, |i: int| le32_at(data@, 4 * i)));
    Ok(offsets)
}

/// Reads and unpacks the pattern that `offset` leads to in the file `ser`.
pub fn load_pattern_at(ser: &[u8], offset: u32) -> (r: Result<Vec<Vec<PatternSlot>>, DecodeError>)
    ensures
        match spec_pattern_at_offset(ser@, offset) {
            Ok(rows) => r.is_ok() && r.unwrap().deep_view() == rows,
            Err(e) => r.is_err() && r.unwrap_err() == e,
        },
{
    if ser.len() < offset as usize {
        return Err(DecodeError::TruncatedInput);
    }
    if offset == 0 {
        let mut pattern: Vec<Vec<PatternSlot>> = Vec::new();
        let row: Vec<PatternSlot> = Vec::new();
        proof {
            assert(row.deep_view() =~= Seq::<PatternSlot>::empty());
        }
        pattern.push(row);
        assert(pattern.deep_view() =~= seq![Seq::<PatternSlot>::empty()]);
        return Ok(pattern);
    }
    let itpattern = match ItPattern::load(slice_subrange(ser, offset as usize, ser.len())) {
        Ok(p) => p,
        Err(e) => {
            return Err(e);
        },
    };
    itpattern.unpack()
}

/// Reads and unpacks the patterns that the offsets lead to, in their order.
pub fn load_patterns(ser: &[u8], offsets: &Vec<u32>) -> (r: Result<
    Vec<Vec<Vec<PatternSlot>>>,
    DecodeError,
>)
    ensures
        r.is_ok() ==> r.unwrap()@.len() == offsets@.len() && forall|p: int|
            0 <= p < offsets@.len() ==> spec_pattern_at_offset(ser@, offsets@[p]) == Ok::<
                Seq<Seq<PatternSlot>>,
                DecodeError,
            >((#[trigger] r.unwrap()@[p]).deep_view()),
        r.is_err() ==> exists|p: int|
            0 <= p < offsets@.len() && (#[trigger] spec_pattern_at_offset(ser@, offsets@[p]))
                == Err::<Seq<Seq<PatternSlot>>, DecodeError>(r.unwrap_err()) && forall|q: int|
                0 <= q < p ==> (#[trigger] spec_pattern_at_offset(ser@, offsets@[q])).is_ok(),
{
    let mut patterns: Vec<Vec<Vec<PatternSlot>>> = Vec::new();
    let mut i: usize = 0;
    while i < offsets.len()
        invariant
            0 <= i <= offsets.len(),
            patterns@.len() == i,
            forall|p: int|
                0 <= p < i ==> spec_pattern_at_offset(ser@, offsets@[p]) == Ok::<
                    Seq<Seq<PatternSlot>>,
                    DecodeError,
                >((#[trigger] patterns@[p]).deep_view()),
        decreases offsets.len() - i,
    {
        match load_pattern_at(ser, offsets[i]) {
            Ok(pattern) => {
                patterns.push(pattern);
            },
            Err(e) => {
                proof {
                    assert forall|q: int| 0 <= q < i implies (#[trigger] spec_pattern_at_offset(
                        ser@,
                        offsets@[q],
                    )).is_ok() by {
                        assert(spec_pattern_at_offset(ser@, offsets@[q]) == Ok::<
                            Seq<Seq<PatternSlot>>,
                            DecodeError,
                        >(patterns@[q].deep_view()));
                    }
                }
                return Err(e);
            },
        }
        i += 1;
    }
    Ok(patterns)
}

/// Reads the data of the sample of a header from the file `ser`.
pub fn load_sample_of(ser: &[u8], header: &ItSampleHeader) -> (r: Result<
    Option<SampleDataType>,
    DecodeError,
>)
    ensures
        match spec_sample_of(ser@, header) {
            Ok(view) => r.is_ok() && sample_view(r.unwrap()) == view,
            Err(e) => r.is_err() && r.unwrap_err() == e,
        },
{
    if !header.is_associated_sample() {
        return Ok(None);
    }
    let start: usize = header.sample_pointer as usize;
    if ser.len() < start {
        return Err(DecodeError::TruncatedInput);
    }
    let sample = match header.get_sample_data(slice_subrange(ser, start, ser.len())) {
        Ok(s) => s,
        Err(e) => {
            return Err(e);
        },
    };
    if sample.len() != 0 {
        Ok(Some(sample))
    } else {
        Ok(None)
    }
}

/// Reads the data of the samples of the headers, in their order.
pub fn load_samples(ser: &[u8], headers: &Vec<ItSampleHeader>) -> (r: Result<
    Vec<Option<SampleDataType>>,
    DecodeError,
>)
    ensures
        r.is_ok() ==> r.unwrap()@.len() == headers@.len() && forall|i: int|
            0 <= i < headers@.len() ==> spec_sample_of(ser@, &headers@[i]) == Ok::<
                Option<SampleDataView>,
                DecodeError,
            >(sample_view(#[trigger] r.unwrap()@[i])),
        r.is_err() ==> exists|i: int|
            0 <= i < headers@.len() && (#[trigger] spec_sample_of(ser@, &headers@[i])) == Err::<
                Option<SampleDataView>,
                DecodeError,
            >(r.unwrap_err()) && forall|q: int|
                0 <= q < i ==> (#[trigger] spec_sample_of(ser@, &headers@[q])).is_ok(),
{
    let mut samples: Vec<Option<SampleDataType>> = Vec::new();
    let mut i: usize = 0;
    while i < headers.len()
        invariant
            0 <= i <= headers.len(),
            samples@.len() == i,
            forall|k: int|
                0 <= k < i ==> spec_sample_of(ser@, &headers@[k]) == Ok::<
                    Option<SampleDataView>,
                    DecodeError,
                >(sample_view(#[trigger] samples@[k])),
        decreases headers.len() - i,
    {
        match load_sample_of(ser, &headers[i]) {
            Ok(sample) => {
                samples.push(sample);
            },
            Err(e) => {
                proof {
                    assert forall|q: int| 0 <= q < i implies (#[trigger] spec_sample_of(
                        ser@,
                        &headers@[q],
                    )).is_ok() by {
                        assert(spec_sample_of(ser@, &headers@[q]) == Ok::<
                            Option<SampleDataView>,
                            DecodeError,
                        >(sample_view(samples@[q])));
                    }
                }
                return Err(e);
            },
        }
        i += 1;
    }
    Ok(samples)
}

} // verus!
