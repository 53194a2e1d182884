use crate::error::DecodeError;
use crate::it_pattern::le16;
use crate::patternslot::{spec_load_xm, xm_cell_len, PatternSlot};
use vstd::prelude::*;
use vstd::slice::slice_subrange;

verus! {

/// The header of a pattern in an XM file.
#[derive(Clone, Copy, Debug, PartialEq, Eq, Structural)]
pub struct XmPatternHeader {
    pub pattern_header_len: u32,
    pub packing_type: u8,
    pub num_rows: u16,
    pub pattern_data_size: u16,
}

/// A pattern of an XM file: its header and its rows of slots.
#[derive(Debug)]
pub struct XmPattern {
    pub header: XmPatternHeader,
    pub pattern: Vec<Vec<PatternSlot>>,
}

/// The header that the nine bytes at the start of `data` hold, and the
/// length that it gives for itself; or an error where `data` is shorter
/// than nine bytes or than that length.
pub open spec fn spec_load_xm_pattern_header(data: Seq<u8>) -> Result<
    (int, XmPatternHeader),
    DecodeError,
> {
    if data.len() < 9 {
        Err(DecodeError::TruncatedInput)
    } else {
        let header_len = le16(data[0], data[1]) + 65536 * le16(data[2], data[3]);
        if data.len() < header_len {
            Err(DecodeError::TruncatedInput)
        } else {
            Ok(
                (
                    header_len,
                    XmPatternHeader {
                        pattern_header_len: header_len as u32,
                        packing_type: data[4],
                        num_rows: le16(data[5], data[6]) as u16,
                        pattern_data_size: le16(data[7], data[8]) as u16,
                    },
                ),
            )
        }
    }
}

/// The slots of the cells that stand one after the other in `data` from
/// byte `pos` on, up to its end; or an error where `data` ends within a
/// cell.
pub open spec fn spec_xm_cells(data: Seq<u8>, pos: int) -> Result<Seq<PatternSlot>, DecodeError>
    decreases data.len() - pos,
{
    if pos < 0 || pos >= data.len() {
        Ok(Seq::empty())
    } else {
        match spec_load_xm(data.subrange(pos, data.len() as int)) {
            None => Err(DecodeError::TruncatedInput),
            Some((used, slot)) => {
                if used <= 0 {
                    Err(DecodeError::TruncatedInput)
                } else {
                    match spec_xm_cells(data, pos + used) {
                        Ok(rest) => Ok(seq![slot] + rest),
                        Err(e) => Err(e),
                    }
                }
            },
        }
    }
}

/// A row of `noc` empty slots.
pub open spec fn empty_line(noc: int) -> Seq<PatternSlot> {
    Seq::new(noc as nat, |c: int| PatternSlot::spec_default())
}

/// The number of full rows of `noc` channels that `count` cells make.
pub open spec fn full_lines(count: int, noc: int) -> int {
    if noc <= 0 {
        0
    } else {
        count / noc
    }
}

/// The rows of a pattern of `noc` channels whose cells are `cells`: the
/// full rows that the cells make, a last row that is not full being left
/// out, and then empty rows up to `rows` rows.
pub open spec fn spec_xm_lines(cells: Seq<PatternSlot>, noc: int, rows: int) -> Seq<
    Seq<PatternSlot>,
> {
    let full = full_lines(cells.len() as int, noc);
    let n = if full > rows {
        full
    } else {
        rows
    };
    Seq::new(
        n as nat,
        |r: int|
            if r < full {
                cells.subrange(r * noc, (r + 1) * noc)
            } else {
                empty_line(noc)
            },
    )
}

/// The rows that the packed cells `data` give for a pattern of `noc`
/// channels and `rows` rows.
pub open spec fn spec_get_slots(data: Seq<u8>, noc: int, rows: int) -> Result<
    Seq<Seq<PatternSlot>>,
    DecodeError,
> {
    match spec_xm_cells(data, 0) {
        Ok(cells) => Ok(spec_xm_lines(cells, noc, rows)),
        Err(e) => Err(e),
    }
}

/// The pattern at the start of `data` and the number of bytes it takes: its
/// header, then as many bytes of packed cells as the header says.
pub open spec fn spec_load_xm_pattern(data: Seq<u8>, noc: u16) -> Result<
    (int, XmPatternHeader, Seq<Seq<PatternSlot>>),
    DecodeError,
> {
    match spec_load_xm_pattern_header(data) {
        Err(e) => Err(e),
        Ok((header_len, header)) => {
            let end = header_len + header.pattern_data_size;
            if data.len() < end {
                Err(DecodeError::TruncatedInput)
            } else {
                match spec_get_slots(
                    data.subrange(header_len, end),
                    noc as int,
                    header.num_rows as int,
                ) {
                    Ok(lines) => Ok((end, header, lines)),
                    Err(e) => Err(e),
                }
            }
        },
    }
}

/// A result with the slots `front` put before those it holds.
pub open spec fn prepend_slots(front: Seq<PatternSlot>, r: Result<Seq<PatternSlot>, DecodeError>) -> Result<
    Seq<PatternSlot>,
    DecodeError,
> {
    match r {
        Ok(rest) => Ok(front + rest),
        Err(e) => Err(e),
    }
}

impl XmPatternHeader {
    pub fn default() -> (r: XmPatternHeader)
        ensures
            r == (XmPatternHeader {
                pattern_header_len: 9,
                packing_type: 0,
                num_rows: 0,
                pattern_data_size: 0,
            }),
    {
        XmPatternHeader { pattern_header_len: 9, packing_type: 0, num_rows: 0, pattern_data_size: 0 }
    }

    /// The header of a pattern of `size` rows; only the low 16 bits of
    /// `size` are kept.
    pub fn new(size: usize) -> (r: XmPatternHeader)
        ensures
            r == (XmPatternHeader {
                pattern_header_len: 9,
                packing_type: 0,
                num_rows: (size % 65536) as u16,
                pattern_data_size: 0,
            }),
    {
        let mut ph = XmPatternHeader::default();
        ph.num_rows = (size % 65536) as u16;
        ph
    }

    /// Reads the header at the start of `data`. Gives the length that the
    /// header has by its own word, and the header.
    pub fn load(data: &[u8]) -> (r: Result<(usize, XmPatternHeader), DecodeError>)
        ensures
            match spec_load_xm_pattern_header(data@) {
                Ok((used, header)) => r == Ok::<(usize, XmPatternHeader), DecodeError>(
                    (used as usize, header),
                ),
                Err(e) => r == Err::<(usize, XmPatternHeader), DecodeError>(e),
            },
    {
        if data.len() < 9 {
            return Err(DecodeError::TruncatedInput);
        }
        let pattern_header_len: u32 = (data[0] as u32 + 256 * (data[1] as u32)) + 65536 * (data[2] as u32
            + 256 * (data[3] as u32));
        let packing_type: u8 = data[4];
        let num_rows: u16 = data[5] as u16 + 256 * (data[6] as u16);
        let pattern_data_size: u16 = data[7] as u16 + 256 * (data[8] as u16);
        if data.len() < pattern_header_len as usize {
            return Err(DecodeError::TruncatedInput);
        }
        Ok(
            (
                pattern_header_len as usize,
                XmPatternHeader { pattern_header_len, packing_type, num_rows, pattern_data_size },
            ),
        )
    }
}

impl XmPattern {
    /// An empty pattern of `rows` rows and `noc` channels.
    pub fn new(rows: usize, noc: usize) -> (r: XmPattern)
        ensures
            r.header == (XmPatternHeader {
                pattern_header_len: 9,
                packing_type: 0,
                num_rows: (rows % 65536) as u16,
                pattern_data_size: 0,
            }),
            r.pattern.deep_view() == Seq::new(rows as nat, |i: int| empty_line(noc as int)),
    {
        let mut pattern: Vec<Vec<PatternSlot>> = Vec::new();
        let mut i: usize = 0;
        while i < rows
            invariant
                0 <= i <= rows,
                pattern@.len() == i,
                forall|k: int| 0 <= k < i ==> (#[trigger] pattern@[k])@ == empty_line(noc as int),
            decreases rows - i,
        {
            pattern.push(Self::get_empty_line(noc));
            i += 1;
        }
        proof {
            assert forall|k: int| 0 <= k < pattern@.len() implies (
            #[trigger] pattern.deep_view()[k]) == empty_line(noc as int) by {
                assert(pattern@[k].deep_view() =~= pattern@[k]@);
            }
            assert(pattern.deep_view() =~= Seq::new(rows as nat, |i: int| empty_line(noc as int)));
        }
        XmPattern { header: XmPatternHeader::new(rows), pattern }
    }

    fn get_empty_line(number_of_channels: usize) -> (r: Vec<PatternSlot>)
        ensures
            r@ == empty_line(number_of_channels as int),
    {
        let mut row: Vec<PatternSlot> = Vec::new();
        let mut i: usize = 0;
        while i < number_of_channels
            invariant
                0 <= i <= number_of_channels,
                row@.len() == i,
                forall|k: int| 0 <= k < i ==> row@[k] == PatternSlot::spec_default(),
            decreases number_of_channels - i,
        {
            row.push(PatternSlot::default());
            i += 1;
        }
        assert(row@ =~= empty_line(number_of_channels as int));
        row
    }

    fn get_cells(data: &[u8]) -> (r: Result<Vec<PatternSlot>, DecodeError>)
        ensures
            match spec_xm_cells(data@, 0) {
                Ok(cells) => r.is_ok() && r.unwrap()@ == cells,
                Err(e) => r.is_err() && r.unwrap_err() == e,
            },
    {
        let mut cells: Vec<PatternSlot> = Vec::new();
        let mut pos: usize = 0;
        let ghost whole = spec_xm_cells(data@, 0);
        proof {
            match whole {
                Ok(all) => {
                    assert(Seq::<PatternSlot>::empty() + all =~= all);
                },
                Err(_) => {},
            }
        }
        while pos < data.len()
            invariant
                0 <= pos <= data@.len(),
                whole == spec_xm_cells(data@, 0),
                whole == prepend_slots(cells@, spec_xm_cells(data@, pos as int)),
            decreases data@.len() - pos,
        {
            let ghost before = cells@;
            match PatternSlot::load_xm(slice_subrange(data, pos, data.len())) {
                Err(e) => {
                    return Err(e);
                },
                Ok((used, slot)) => {
                    proof {
                        let first = data@.subrange(pos as int, data@.len() as int)[0];
                        assert(1 <= xm_cell_len(first) <= 6);
                    }
                    cells.push(slot);
                    pos += used;
                    proof {
                        match spec_xm_cells(data@, pos as int) {
                            Ok(more) => {
                                assert(before + (seq![slot] + more) =~= cells@ + more);
                            },
                            Err(_) => {},
                        }
                    }
                },
            }
        }
        proof {
            assert(cells@ + Seq::<PatternSlot>::empty() =~= cells@);
        }
        Ok(cells)
    }

    fn get_slots(data: &[u8], number_of_channels: usize, number_of_rows: usize) -> (r: Result<
        Vec<Vec<PatternSlot>>,
        DecodeError,
    >)
        ensures
            match spec_get_slots(data@, number_of_channels as int, number_of_rows as int) {
                Ok(lines) => r.is_ok() && r.unwrap().deep_view() == lines,
                Err(e) => r.is_err() && r.unwrap_err() == e,
            },
    {
        let cells = match Self::get_cells(data) {
            Ok(c) => c,
            Err(e) => {
                return Err(e);
            },
        };
        let noc = number_of_channels;
        let count: usize = cells.len();
        let full: usize = if noc == 0 {
            0
        } else {
            count / noc
        };
        let mut lines: Vec<Vec<PatternSlot>> = Vec::new();
        let mut r: usize = 0;
        while r < full
            invariant
                0 <= r <= full,
                cells@.len() <= usize::MAX,
                full == full_lines(cells@.len() as int, noc as int),
                lines@.len() == r,
                forall|k: int|
                    0 <= k < r ==> (#[trigger] lines@[k])@ == cells@.subrange(
                        k * noc,
                        (k + 1) * noc,
                    ),
            decreases full - r,
        {
            proof {
                let count = cells@.len() as int;
                let n = noc as int;
                let ri = r as int;
                assert(ri * n + n <= count && (ri + 1) * n == ri * n + n && 0 <= ri * n)
                    by (nonlinear_arith)
                    requires
                        0 <= ri < count / n,
                        n > 0,
                        count >= 0,
                ;
            }
            let start: usize = r * noc;
            let mut row: Vec<PatternSlot> = Vec::new();
            let mut c: usize = 0;
            while c < noc
                invariant
                    0 <= c <= noc,
                    cells@.len() <= usize::MAX,
                    start + noc <= cells@.len(),
                    row@.len() == c,
                    forall|k: int| 0 <= k < c ==> row@[k] == cells@[start + k],
                decreases noc - c,
            {
                row.push(cells[start + c]);
                c += 1;
            }
            assert(row@ =~= cells@.subrange(r * noc, (r + 1) * noc));
            lines.push(row);
            r += 1;
        }
        while lines.len() < number_of_rows
            invariant
                full <= lines@.len(),
                lines@.len() <= number_of_rows || lines@.len() == full,
                forall|k: int|
                    0 <= k < full ==> (#[trigger] lines@[k])@ == cells@.subrange(
                        k * noc,
                        (k + 1) * noc,
                    ),
                forall|k: int|
                    full <= k < lines@.len() ==> (#[trigger] lines@[k])@ == empty_line(noc as int),
            decreases number_of_rows - lines@.len(),
        {
            lines.push(Self::get_empty_line(noc));
        }
        proof {
            let want = spec_xm_lines(cells@, noc as int, number_of_rows as int);
            assert(lines@.len() == want.len());
            assert forall|k: int| 0 <= k < lines@.len() implies (#[trigger] lines.deep_view()[k])
                == want[k] by {
                assert(lines@[k].deep_view() =~= lines@[k]@);
            }
            assert(lines.deep_view() =~= want);
        }
        Ok(lines)
    }

    /// Reads the pattern at the start of `data`, for `number_of_channels`
    /// channels. Gives the number of bytes that the pattern takes, and the
    /// pattern.
    pub fn load(data: &[u8], number_of_channels: u16) -> (r: Result<(usize, XmPattern), DecodeError>)
        ensures
            match spec_load_xm_pattern(data@, number_of_channels) {
                Ok((used, header, lines)) => {
                    &&& r.is_ok()
                    &&& r.unwrap().0 == used
                    &&& r.unwrap().1.header == header
                    &&& r.unwrap().1.pattern.deep_view() == lines
                },
                Err(e) => r.is_err() && r.unwrap_err() == e,
            },
    {
        let (header_len, header) = match XmPatternHeader::load(data) {
            Ok(h) => h,
            Err(e) => {
                return Err(e);
            },
        };
        let size: usize = header.pattern_data_size as usize;
        if data.len() - header_len < size {
            return Err(DecodeError::TruncatedInput);
        }
        let end: usize = header_len + size;
        let pattern = match Self::get_slots(
            slice_subrange(data, header_len, end),
            number_of_channels as usize,
            header.num_rows as usize,
        ) {
            Ok(lines) => lines,
            Err(e) => {
                return Err(e);
            },
        };
        Ok((end, XmPattern { header, pattern }))
    }
}

/// How an XM file relates periods to frequencies.
#[derive(Clone, Copy, Debug, PartialEq, Eq, Structural)]
pub enum XmFlagType {
    XmAmigaFrequencies,
    XmLinearFrequencies,
}

impl XmFlagType {
    /// The flag type that the number in the header stands for: 0 for Amiga
    /// frequencies, 1 for linear ones.
    pub fn try_from(value: u16) -> (r: Result<XmFlagType, DecodeError>)
        ensures
            value == 0 ==> r == Ok::<XmFlagType, DecodeError>(XmFlagType::XmAmigaFrequencies),
            value == 1 ==> r == Ok::<XmFlagType, DecodeError>(XmFlagType::XmLinearFrequencies),
            value > 1 ==> r == Err::<XmFlagType, DecodeError>(DecodeError::MalformedField),
    {
        if value == 0 {
            Ok(XmFlagType::XmAmigaFrequencies)
        } else if value == 1 {
            Ok(XmFlagType::XmLinearFrequencies)
        } else {
            Err(DecodeError::MalformedField)
        }
    }

    /// The number that stands for the flag type in a header.
    pub fn value(&self) -> (r: u16)
        ensures
            r == (match self {
                XmFlagType::XmAmigaFrequencies => 0u16,
                XmFlagType::XmLinearFrequencies => 1u16,
            }),
    {
        match self {
            XmFlagType::XmAmigaFrequencies => 0,
            XmFlagType::XmLinearFrequencies => 1,
        }
    }
}

/// The order table of an XM file, whose header says that it is `header_size`
/// bytes long from the size field on, of which 20 are fixed fields, and
/// that the song has `song_length` positions. `data` starts after the fixed
/// fields. Gives the number of bytes of `data` that belong to the header,
/// and the positions of the song; or an error where the header size is
/// below 20, `data` is shorter than the header says, or the song is longer
/// than the table.
pub open spec fn spec_xm_pattern_order(header_size: u32, song_length: u16, data: Seq<u8>) -> Result<
    (int, Seq<u8>),
    DecodeError,
> {
    let table = header_size - 20;
    if header_size < 20 {
        Err(DecodeError::MalformedField)
    } else if data.len() < table {
        Err(DecodeError::TruncatedInput)
    } else if song_length > table {
        Err(DecodeError::MalformedField)
    } else {
        Ok((table, data.subrange(0, song_length as int)))
    }
}

/// Reads the order table that follows the fixed fields of an XM header.
pub fn get_pattern_order(header_size: u32, song_length: u16, data: &[u8]) -> (r: Result<
    (usize, Vec<u8>),
    DecodeError,
>)
    ensures
        match spec_xm_pattern_order(header_size, song_length, data@) {
            Ok((used, order)) => r.is_ok() && r.unwrap().0 == used && r.unwrap().1@ == order,
            Err(e) => r.is_err() && r.unwrap_err() == e,
        },
{
    if header_size < 20 {
        return Err(DecodeError::MalformedField);
    }
    let table: u32 = header_size - 20;
    if data.len() < table as usize {
        return Err(DecodeError::TruncatedInput);
    }
    if song_length as u32 > table {
        return Err(DecodeError::MalformedField);
    }
    let mut order: Vec<u8> = Vec::new();
    let mut i: usize = 0;
    while i < song_length as usize
        invariant
            0 <= i <= song_length <= data.len(),
            order@ == data@.subrange(0, i as int),
        decreases song_length - i,
    {
        order.push(data[i]);
        assert(data@.subrange(0, i + 1) =~= data@.subrange(0, i as int).push(data@[i as int]));
        i += 1;
    }
    Ok((table as usize, order))
}

/// The place in `data` at which pattern `i` starts, when the patterns stand
/// one after the other from the start of `data`; or an error where an
/// earlier pattern cannot be read.
pub open spec fn xm_pattern_start(data: Seq<u8>, noc: u16, i: int) -> Result<int, DecodeError>
    decreases i,
{
    if i <= 0 {
        Ok(0)
    } else {
        match xm_pattern_start(data, noc, i - 1) {
            Err(e) => Err(e),
            Ok(at) => match spec_load_xm_pattern(data.subrange(at, data.len() as int), noc) {
                Err(e) => Err(e),
                Ok((used, header, lines)) => Ok(at + used),
            },
        }
    }
}

/// Reads `count` patterns that stand one after the other at the start of
/// `data`. Gives the number of bytes that they take, and the patterns.
pub fn load_xm_patterns(data: &[u8], count: u16, number_of_channels: u16) -> (r: Result<
    (usize, Vec<XmPattern>),
    DecodeError,
>)
    ensures
        match xm_pattern_start(data@, number_of_channels, count as int) {
            Ok(end) => {
                &&& r.is_ok()
                &&& r.unwrap().0 == end
                &&& r.unwrap().1@.len() == count
                &&& forall|i: int|
                    0 <= i < count ==> {
                        let at = xm_pattern_start(data@, number_of_channels, i).unwrap();
                        let p = spec_load_xm_pattern(
                            data@.subrange(at, data@.len() as int),
                            number_of_channels,
                        ).unwrap();
                        (#[trigger] r.unwrap().1@[i]).header == p.1 && r.unwrap().1@[i].pattern.deep_view()
                            == p.2
                    }
            },
            Err(e) => r.is_err() && r.unwrap_err() == e,
        },
{
    let mut patterns: Vec<XmPattern> = Vec::new();
    let mut at: usize = 0;
    let mut i: u16 = 0;
    while i < count
        invariant
            0 <= i <= count,
            0 <= at <= data.len(),
            xm_pattern_start(data@, number_of_channels, i as int) == Ok::<int, DecodeError>(
                at as int,
            ),
            patterns@.len() == i,
            forall|k: int|
                0 <= k < i ==> {
                    let start = xm_pattern_start(data@, number_of_channels, k).unwrap();
                    let p = spec_load_xm_pattern(
                        data@.subrange(start, data@.len() as int),
                        number_of_channels,
                    ).unwrap();
                    (#[trigger] patterns@[k]).header == p.1 && patterns@[k].pattern.deep_view()
                        == p.2
                },
        decreases count - i,
    {
        match XmPattern::load(slice_subrange(data, at, data.len()), number_of_channels) {
            Err(e) => {
                proof {
                    lemma_xm_pattern_start_error(
                        data@,
                        number_of_channels,
                        i as int + 1,
                        count as int,
                    );
                }
                return Err(e);
            },
            Ok((used, pattern)) => {
                patterns.push(pattern);
                at += used;
            },
        }
        i += 1;
    }
    Ok((at, patterns))
}

/// Once a pattern cannot be read, no later pattern has a start.
pub proof fn lemma_xm_pattern_start_error(data: Seq<u8>, noc: u16, i: int, j: int)
    requires
        0 <= i <= j,
        xm_pattern_start(data, noc, i).is_err(),
    ensures
        xm_pattern_start(data, noc, j) == xm_pattern_start(data, noc, i),
    decreases j - i,
{
    if i < j {
        lemma_xm_pattern_start_error(data, noc, i, j - 1);
    }
}

} // verus!
