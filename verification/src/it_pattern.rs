use crate::error::DecodeError;
use crate::patternslot::PatternSlot;
use crate::pitch::Pitch;
use vstd::prelude::*;
use vstd::slice::slice_subrange;

verus! {

/// The number of channels of an IT pattern.
pub const IT_CHANNELS: usize = 64;

/// A pattern as an IT file holds it: a header of eight bytes and the packed
/// cells.
#[derive(Debug)]
pub struct ItPattern {
    /// Length of the packed data in bytes.
    pub pattern_length: u16,
    /// Number of rows; IT allows 32 to 200.
    pub row_count: i16,
    pub reserved: u32,
    pub packed_data: Vec<u8>,
}

/// The number that two bytes stand for, the low byte first.
pub open spec fn le16(lo: u8, hi: u8) -> int {
    lo as int + 256 * hi as int
}

/// What the eight bytes of a pattern header and the bytes after them hold,
/// or an error where `source` ends before the header or the packed data do.
pub open spec fn spec_load_it_pattern(source: Seq<u8>) -> Result<(int, int, int, Seq<u8>), DecodeError> {
    if source.len() < 8 {
        Err(DecodeError::TruncatedInput)
    } else {
        let pattern_length = le16(source[0], source[1]);
        let rows = le16(source[2], source[3]);
        let reserved = le16(source[4], source[5]) + 65536 * le16(source[6], source[7]);
        if source.len() - 8 < pattern_length {
            Err(DecodeError::TruncatedInput)
        } else {
            Ok(
                (
                    pattern_length,
                    if rows >= 32768 {
                        rows - 65536
                    } else {
                        rows
                    },
                    reserved,
                    source.subrange(8, 8 + pattern_length),
                ),
            )
        }
    }
}

/// 1 if `mask` has a bit of `bit` set, else 0.
pub open spec fn bit_set(mask: u8, bit: u8) -> int {
    if mask & bit != 0 {
        1
    } else {
        0
    }
}

/// The channel that a channel mask other than 0 names.
pub open spec fn mask_channel(channel_mask: u8) -> int {
    ((channel_mask - 1) as u8 & 63) as int
}

/// The field mask of the cell that follows the channel mask at `at - 1`:
/// the next byte where the channel mask has its top bit set, else the field
/// mask that the channel used last.
pub open spec fn cell_field_mask(data: Seq<u8>, at: int, channel_mask: u8, masks: Seq<u8>) -> u8 {
    if channel_mask & 0x80 != 0 {
        data[at]
    } else {
        masks[mask_channel(channel_mask)]
    }
}

/// The number of bytes that a cell takes after its channel mask: the field
/// mask if it is there, then one byte for each of the note, the instrument
/// and the volume, and two for the effect, as the field mask says.
pub open spec fn cell_len(channel_mask: u8, field_mask: u8) -> int {
    bit_set(channel_mask, 0x80) + bit_set(field_mask, 1) + bit_set(field_mask, 2) + bit_set(
        field_mask,
        4,
    ) + 2 * bit_set(field_mask, 8)
}

/// The note byte with the two stray values 240 and 246, which some files
/// hold, taken as "no note".
pub open spec fn repaired_note(n: u8) -> u8 {
    if n == 240 || n == 246 {
        253
    } else {
        n
    }
}

/// The slot of a cell whose bytes are all there. Each of the four fields
/// comes from the data where the low nibble of the field mask says so, else
/// from the slot above where the high nibble says so and there is a row
/// above, else it is empty.
pub open spec fn cell_slot(
    data: Seq<u8>,
    at: int,
    channel_mask: u8,
    field_mask: u8,
    above: Option<PatternSlot>,
) -> PatternSlot {
    let o1 = at + bit_set(channel_mask, 0x80);
    let o2 = o1 + bit_set(field_mask, 1);
    let o3 = o2 + bit_set(field_mask, 2);
    let o4 = o3 + bit_set(field_mask, 4);
    let empty = PatternSlot::spec_default();
    PatternSlot {
        note: if field_mask & 0x01 != 0 {
            Pitch::spec_from_value(repaired_note(data[o1]))
        } else if field_mask & 0x10 != 0 && above.is_some() {
            above.unwrap().note
        } else {
            empty.note
        },
        instrument: if field_mask & 0x02 != 0 {
            if data[o2] != 0 {
                Some((data[o2] - 1) as usize)
            } else {
                None
            }
        } else if field_mask & 0x20 != 0 && above.is_some() {
            above.unwrap().instrument
        } else {
            empty.instrument
        },
        volume: if field_mask & 0x04 != 0 {
            data[o3]
        } else if field_mask & 0x40 != 0 && above.is_some() {
            above.unwrap().volume
        } else {
            empty.volume
        },
        effect_type: if field_mask & 0x08 != 0 {
            data[o4]
        } else if field_mask & 0x80 != 0 && above.is_some() {
            above.unwrap().effect_type
        } else {
            empty.effect_type
        },
        effect_parameter: if field_mask & 0x08 != 0 {
            data[o4 + 1]
        } else if field_mask & 0x80 != 0 && above.is_some() {
            above.unwrap().effect_parameter
        } else {
            empty.effect_parameter
        },
    }
}

/// The error of the cell after the channel mask at `at - 1`, if it has one:
/// the data ends within the cell, or its note byte stands for no pitch.
pub open spec fn cell_error(data: Seq<u8>, at: int, channel_mask: u8, masks: Seq<u8>) -> Option<
    DecodeError,
> {
    if channel_mask & 0x80 != 0 && at >= data.len() {
        Some(DecodeError::TruncatedInput)
    } else {
        let field_mask = cell_field_mask(data, at, channel_mask, masks);
        let o1 = at + bit_set(channel_mask, 0x80);
        if field_mask & 0x01 != 0 && o1 >= data.len() {
            Some(DecodeError::TruncatedInput)
        } else if field_mask & 0x01 != 0 && !Pitch::is_pitch_value(repaired_note(data[o1])) {
            Some(DecodeError::MalformedField)
        } else if at + cell_len(channel_mask, field_mask) > data.len() {
            Some(DecodeError::TruncatedInput)
        } else {
            None
        }
    }
}

/// A row of 64 empty slots.
pub open spec fn empty_row() -> Seq<PatternSlot> {
    Seq::new(IT_CHANNELS as nat, |c: int| PatternSlot::spec_default())
}

/// `n` rows of 64 empty slots.
pub open spec fn empty_rows(n: int) -> Seq<Seq<PatternSlot>> {
    Seq::new(n as nat, |r: int| empty_row())
}

/// The slot of `channel` in the row above, if there is one.
pub open spec fn slot_above(above: Option<Seq<PatternSlot>>, channel: int) -> Option<PatternSlot> {
    match above {
        Some(row) => Some(row[channel]),
        None => None,
    }
}

/// The rows that the packed data gives from byte `pos` on, when `rows_left`
/// rows are still to come, the first of them filled as `current` so far.
///
/// A channel mask of 0 ends the row. Another names a channel, whose cell
/// follows. Where the data ends at a channel mask, the rows that are still
/// to come stay as they are: the current one as filled so far, the others
/// empty.
pub open spec fn spec_unpack_rows(
    data: Seq<u8>,
    pos: int,
    rows_left: int,
    masks: Seq<u8>,
    above: Option<Seq<PatternSlot>>,
    current: Seq<PatternSlot>,
) -> Result<Seq<Seq<PatternSlot>>, DecodeError>
    decreases data.len() - pos,
{
    if rows_left <= 0 {
        Ok(Seq::empty())
    } else if pos < 0 || pos >= data.len() {
        Ok(seq![current] + empty_rows(rows_left - 1))
    } else if data[pos] == 0 {
        match spec_unpack_rows(data, pos + 1, rows_left - 1, masks, Some(current), empty_row()) {
            Ok(rest) => Ok(seq![current] + rest),
            Err(e) => Err(e),
        }
    } else {
        let channel_mask = data[pos];
        let channel = mask_channel(channel_mask);
        match cell_error(data, pos + 1, channel_mask, masks) {
            Some(e) => Err(e),
            None => {
                let field_mask = cell_field_mask(data, pos + 1, channel_mask, masks);
                let slot = cell_slot(
                    data,
                    pos + 1,
                    channel_mask,
                    field_mask,
                    slot_above(above, channel),
                );
                spec_unpack_rows(
                    data,
                    pos + 1 + cell_len(channel_mask, field_mask),
                    rows_left,
                    masks.update(channel, field_mask),
                    above,
                    current.update(channel, slot),
                )
            },
        }
    }
}

/// The rows of an IT pattern of `row_count` rows with the packed cells
/// `data`: 64 slots each. A negative number of rows is refused.
pub open spec fn spec_unpack_it_pattern(row_count: i16, data: Seq<u8>) -> Result<
    Seq<Seq<PatternSlot>>,
    DecodeError,
> {
    if row_count < 0 {
        Err(DecodeError::MalformedField)
    } else {
        spec_unpack_rows(
            data,
            0,
            row_count as int,
            Seq::new(IT_CHANNELS as nat, |c: int| 0u8),
            None,
            empty_row(),
        )
    }
}

/// A result with the rows `front` put before those it holds.
pub open spec fn prepend_rows(
    front: Seq<Seq<PatternSlot>>,
    r: Result<Seq<Seq<PatternSlot>>, DecodeError>,
) -> Result<Seq<Seq<PatternSlot>>, DecodeError> {
    match r {
        Ok(rest) => Ok(front + rest),
        Err(e) => Err(e),
    }
}

/// A row of 64 empty slots.
pub fn new_empty_row() -> (r: Vec<PatternSlot>)
    ensures
        r@ == empty_row(),
{
    let mut row: Vec<PatternSlot> = Vec::new();
    let mut i: usize = 0;
    while i < IT_CHANNELS
        invariant
            0 <= i <= IT_CHANNELS,
            row@.len() == i,
            forall|k: int| 0 <= k < i ==> row@[k] == PatternSlot::spec_default(),
        decreases IT_CHANNELS - i,
    {
        row.push(PatternSlot::default());
        i += 1;
    }
    assert(row@ =~= empty_row());
    row
}

/// The field mask that a channel used last, as the cell of the channel mask
/// finds it.
pub open spec fn last_field_mask(data: Seq<u8>, at: int, channel_mask: u8, last: u8) -> u8 {
    if channel_mask & 0x80 != 0 {
        data[at]
    } else {
        last
    }
}

/// Reads the cell that follows a channel mask, from byte `at` on. `last` is
/// the field mask that the channel used last, `above` the slot of the
/// channel in the row above. Gives the place after the cell, the field mask
/// of the cell, and its slot.
pub fn read_cell(data: &[u8], at: usize, channel_mask: u8, last: u8, above: Option<PatternSlot>) -> (r:
    Result<(usize, u8, PatternSlot), DecodeError>)
    requires
        channel_mask != 0,
        at <= data@.len(),
    ensures
        ({
            let field_mask = last_field_mask(data@, at as int, channel_mask, last);
            let o1 = at + bit_set(channel_mask, 0x80);
            if channel_mask & 0x80 != 0 && at >= data@.len() {
                r == Err::<(usize, u8, PatternSlot), DecodeError>(DecodeError::TruncatedInput)
            } else if field_mask & 0x01 != 0 && o1 >= data@.len() {
                r == Err::<(usize, u8, PatternSlot), DecodeError>(DecodeError::TruncatedInput)
            } else if field_mask & 0x01 != 0 && !Pitch::is_pitch_value(repaired_note(data@[o1])) {
                r == Err::<(usize, u8, PatternSlot), DecodeError>(DecodeError::MalformedField)
            } else if at + cell_len(channel_mask, field_mask) > data@.len() {
                r == Err::<(usize, u8, PatternSlot), DecodeError>(DecodeError::TruncatedInput)
            } else {
                r == Ok::<(usize, u8, PatternSlot), DecodeError>(
                    (
                        (at + cell_len(channel_mask, field_mask)) as usize,
                        field_mask,
                        cell_slot(data@, at as int, channel_mask, field_mask, above),
                    ),
                )
            }
        }),
{
    let mut next: usize = at;
    let mask_variable: u8 = if channel_mask & 0x80 != 0 {
        if next >= data.len() {
            return Err(DecodeError::TruncatedInput);
        }
        let var: u8 = data[next];
        next += 1;
        var
    } else {
        last
    };
    let mut slot = PatternSlot::default();
    if mask_variable & 0x01 != 0 {
        if next >= data.len() {
            return Err(DecodeError::TruncatedInput);
        }
        let mut n: u8 = data[next];
        next += 1;
        if n == 240 || n == 246 {
            n = 253;
        }
        match Pitch::try_from(n) {
            Ok(p) => {
                slot.note = p;
            },
            Err(e) => {
                return Err(e);
            },
        }
    } else if mask_variable & 0x10 != 0 {
        match above {
            Some(s) => {
                slot.note = s.note;
            },
            None => {},
        }
    }
    if mask_variable & 0x02 != 0 {
        if next >= data.len() {
            return Err(DecodeError::TruncatedInput);
        }
        let instr: u8 = data[next];
        next += 1;
        slot.instrument = if instr != 0 {
            Some((instr - 1) as usize)
        } else {
            None
        };
    } else if mask_variable & 0x20 != 0 {
        match above {
            Some(s) => {
                slot.instrument = s.instrument;
            },
            None => {},
        }
    }
    if mask_variable & 0x04 != 0 {
        if next >= data.len() {
            return Err(DecodeError::TruncatedInput);
        }
        slot.volume = data[next];
        next += 1;
    } else if mask_variable & 0x40 != 0 {
        match above {
            Some(s) => {
                slot.volume = s.volume;
            },
            None => {},
        }
    }
    if mask_variable & 0x08 != 0 {
        if next >= data.len() || data.len() - next < 2 {
            return Err(DecodeError::TruncatedInput);
        }
        slot.effect_type = data[next];
        slot.effect_parameter = data[next + 1];
        next += 2;
    } else if mask_variable & 0x80 != 0 {
        match above {
            Some(s) => {
                slot.effect_type = s.effect_type;
                slot.effect_parameter = s.effect_parameter;
            },
            None => {},
        }
    }
    Ok((next, mask_variable, slot))
}

/// What a vector of slots holds is the slots themselves.
pub proof fn lemma_row_deep_view(v: Vec<PatternSlot>)
    ensures
        v.deep_view() == v@,
{
    assert(v.deep_view() =~= v@);
}

impl ItPattern {
    /// Reads the header of a pattern and its packed data from the start of
    /// `source`.
    pub fn load(source: &[u8]) -> (r: Result<ItPattern, DecodeError>)
        ensures
            match spec_load_it_pattern(source@) {
                Ok((length, rows, reserved, data)) => {
                    &&& r.is_ok()
                    &&& r.unwrap().pattern_length == length
                    &&& r.unwrap().row_count == rows
                    &&& r.unwrap().reserved == reserved
                    &&& r.unwrap().packed_data@ == data
                },
                Err(e) => r.is_err() && r.unwrap_err() == e,
            },
    {
        if source.len() < 8 {
            return Err(DecodeError::TruncatedInput);
        }
        let pattern_length: u16 = source[0] as u16 + 256 * (source[1] as u16);
        let rows: u16 = source[2] as u16 + 256 * (source[3] as u16);
        let row_count: i16 = if rows >= 32768 {
            (rows as i32 - 65536) as i16
        } else {
            rows as i16
        };
        let reserved: u32 = (source[4] as u32 + 256 * (source[5] as u32)) + 65536 * (source[6] as u32
            + 256 * (source[7] as u32));
        if source.len() - 8 < pattern_length as usize {
            return Err(DecodeError::TruncatedInput);
        }
        let packed = slice_subrange(source, 8, 8 + pattern_length as usize);
        let mut packed_data: Vec<u8> = Vec::new();
        let mut i: usize = 0;
        while i < packed.len()
            invariant
                0 <= i <= packed.len(),
                packed_data@ == packed@.take(i as int),
            decreases packed.len() - i,
        {
            packed_data.push(packed[i]);
            assert(packed@.take(i + 1) =~= packed@.take(i as int).push(packed@[i as int]));
            i += 1;
        }
        assert(packed@.take(packed.len() as int) =~= packed@);
        Ok(ItPattern { pattern_length, row_count, reserved, packed_data })
    }

    /// Unpacks the cells into rows of 64 slots.
    pub fn unpack(&self) -> (r: Result<Vec<Vec<PatternSlot>>, DecodeError>)
        ensures
            match spec_unpack_it_pattern(self.row_count, self.packed_data@) {
                Ok(rows) => {
                    &&& r.is_ok()
                    &&& r.unwrap().deep_view() == rows
                    &&& rows.len() == self.row_count
                    &&& forall|k: int| 0 <= k < rows.len() ==> (#[trigger] rows[k]).len() == 64
                },
                Err(e) => r.is_err() && r.unwrap_err() == e,
            },
    {
        if self.row_count < 0 {
            return Err(DecodeError::MalformedField);
        }
        let rows: usize = self.row_count as usize;
        let data = &self.packed_data;
        let mut result: Vec<Vec<PatternSlot>> = Vec::new();
        let mut last_mask_vars: Vec<u8> = Vec::new();
        let mut c: usize = 0;
        while c < IT_CHANNELS
            invariant
                0 <= c <= IT_CHANNELS,
                last_mask_vars@.len() == c,
                forall|k: int| 0 <= k < c ==> last_mask_vars@[k] == 0u8,
            decreases IT_CHANNELS - c,
        {
            last_mask_vars.push(0u8);
            c += 1;
        }
        assert(last_mask_vars@ =~= Seq::new(IT_CHANNELS as nat, |c: int| 0u8));
        let mut current: Vec<PatternSlot> = new_empty_row();
        let mut pos: usize = 0;
        let ghost whole = spec_unpack_it_pattern(self.row_count, data@);
        proof {
            let start = spec_unpack_rows(data@, 0, rows as int, last_mask_vars@, None, current@);
            match start {
                Ok(all) => {
                    assert(Seq::<Seq<PatternSlot>>::empty() + all =~= all);
                },
                Err(_) => {},
            }
        }
        while result.len() < rows && pos < data.len()
            invariant
                0 <= pos <= data@.len(),
                data@ == self.packed_data@,
                result@.len() <= rows,
                rows == self.row_count,
                last_mask_vars@.len() == 64,
                current@.len() == 64,
                forall|k: int| 0 <= k < result@.len() ==> (#[trigger] result@[k])@.len() == 64,
                whole == spec_unpack_it_pattern(self.row_count, data@),
                whole == prepend_rows(
                    result.deep_view(),
                    spec_unpack_rows(
                        data@,
                        pos as int,
                        rows - result@.len(),
                        last_mask_vars@,
                        if result@.len() > 0 {
                            Some(result@[result@.len() - 1]@)
                        } else {
                            None
                        },
                        current@,
                    ),
                ),
            decreases data@.len() - pos,
        {
            let channel_mask: u8 = data[pos];
            let ghost before = result.deep_view();
            let ghost above = if result@.len() > 0 {
                Some(result@[result@.len() - 1]@)
            } else {
                None
            };
            if channel_mask == 0 {
                let ghost done = current@;
                proof {
                    lemma_row_deep_view(current);
                }
                result.push(current);
                current = new_empty_row();
                pos += 1;
                proof {
                    assert(result.deep_view() =~= before.push(done));
                    let rest = spec_unpack_rows(
                        data@,
                        pos as int,
                        rows - result@.len(),
                        last_mask_vars@,
                        Some(done),
                        current@,
                    );
                    match rest {
                        Ok(more) => {
                            assert(before + (seq![done] + more) =~= result.deep_view() + more);
                        },
                        Err(_) => {},
                    }
                }
            } else {
                let at: usize = pos + 1;
                let channel: usize = ((channel_mask - 1) & 63) as usize;
                assert(((channel_mask - 1) as u8 & 63) < 64) by (bit_vector);
                let above_slot: Option<PatternSlot> = if result.len() > 0 {
                    Some(result[result.len() - 1][channel])
                } else {
                    None
                };
                let (next, mask_variable, slot) = match read_cell(
                    data.as_slice(),
                    at,
                    channel_mask,
                    last_mask_vars[channel],
                    above_slot,
                ) {
                    Ok(cell) => cell,
                    Err(e) => {
                        return Err(e);
                    },
                };
                proof {
                    assert(above_slot == slot_above(above, channel as int));
                }
                last_mask_vars.set(channel, mask_variable);
                current.set(channel, slot);
                pos = next;
            }
        }
        let ghost above = if result@.len() > 0 {
            Some(result@[result@.len() - 1]@)
        } else {
            None
        };
        let ghost before = result.deep_view();
        let ghost tail = spec_unpack_rows(
            data@,
            pos as int,
            rows - result@.len(),
            last_mask_vars@,
            above,
            current@,
        );
        if result.len() < rows {
            let ghost done = current@;
            proof {
                lemma_row_deep_view(current);
            }
            result.push(current);
            proof {
                assert(result.deep_view() =~= before.push(done));
            }
            while result.len() < rows
                invariant
                    before.len() + 1 <= result@.len() <= rows,
                    forall|k: int| 0 <= k < result@.len() ==> (#[trigger] result@[k])@.len() == 64,
                    result.deep_view() =~= before + (seq![done] + empty_rows(
                        result@.len() - before.len() - 1,
                    )),
                decreases rows - result@.len(),
            {
                let ghost was = result.deep_view();
                let row = new_empty_row();
                proof {
                    lemma_row_deep_view(row);
                }
                result.push(row);
                proof {
                    assert(result.deep_view() =~= was.push(empty_row()));
                }
            }
            proof {
                assert(tail == Ok::<Seq<Seq<PatternSlot>>, DecodeError>(
                    seq![done] + empty_rows(rows - before.len() - 1),
                ));
            }
        } else {
            proof {
                assert(before + Seq::<Seq<PatternSlot>>::empty() =~= before);
            }
        }
        proof {
            let rows_view = result.deep_view();
            assert(rows_view.len() == rows);
            assert forall|k: int| 0 <= k < rows_view.len() implies (#[trigger] rows_view[k]).len()
                == 64 by {
                lemma_row_deep_view(result@[k]);
            }
        }
        Ok(result)
    }
}

} // verus!
