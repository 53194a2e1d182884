//! Tracks and patterns of SID tunes.
//!
//! A tune keeps its music as tracks: runs of cells for one voice, each
//! ended by the byte 255. A cell starts with a byte that holds the number of
//! empty rows after it in its low five bits, and three flags; a byte for an
//! instrument or a slide, and a byte for the note, may follow.

use crate::error::DecodeError;
use crate::patternslot::PatternSlot;
use crate::pitch::Pitch;
use vstd::prelude::*;

verus! {

/// The tracks of a tune, the tracks that each channel plays, and the
/// channels of each song.
#[derive(Debug)]
pub struct PatternHelper {
    /// The version of the player, which decides how slides are written.
    pub version: usize,
    pub songs: Vec<Vec<usize>>,
    pub channels: Vec<Vec<u8>>,
    pub tracks: Vec<Vec<u8>>,
}

/// What the head byte of a cell says.
pub struct CellHead {
    /// The number of empty rows after the cell.
    pub length: int,
    /// The note is released.
    pub release: bool,
    /// The cell has a note byte.
    pub append: bool,
    /// A byte for an instrument or a slide comes before the note byte.
    pub instr_or_portamento: bool,
}

/// The parts of a head byte: the length in bits 0 to 4; release where bit
/// 5 is clear; a note byte where bit 6 is clear; an instrument or slide
/// byte where bit 7 is set.
pub open spec fn cell_head(head: u8) -> CellHead {
    CellHead {
        length: (head % 32) as int,
        release: (head / 32) % 2 == 0,
        append: (head / 64) % 2 == 0,
        instr_or_portamento: head >= 128,
    }
}

/// The note that a note byte stands for. Its low seven bits are the note.
/// Some tunes read beyond the table of notes of their player: for the
/// values above 96 that they are known to use, the note that the player
/// found there is taken, and for the others their low six bits.
///
/// | value | note | tune                  |
/// | ----- | ---- | --------------------- |
/// | 97    | 0    | Commando              |
/// | 98    | 12   | Crazy Comets, Commando |
/// | 100   | 3    | Commando              |
/// | 104   | 65   | Monty on the Run      |
/// | 105   | 65   |                       |
/// | 107   | 6    |                       |
/// | 127   | 0    |                       |
pub open spec fn sid_note(byte: u8) -> u8 {
    let n = (byte % 128) as u8;
    if n <= 96 {
        n
    } else if n == 97 {
        0
    } else if n == 98 {
        12
    } else if n == 100 {
        3
    } else if n == 104 {
        65
    } else if n == 105 {
        65
    } else if n == 107 {
        6
    } else if n == 127 {
        0
    } else {
        (n % 64) as u8
    }
}

/// What the byte for an instrument or a slide does to a cell that starts at
/// `at - 1`, where `at` is the place of that byte.
pub struct SlidePart {
    pub instrument: Option<usize>,
    pub effect_type: u8,
    pub effect_parameter: u8,
    /// The place of the note byte.
    pub note_at: int,
}

/// The instrument or the slide that the byte at `at` gives, by the version
/// of the player, and the place of the note byte; or an error where the
/// cell cannot be read.
///
/// A byte below 128 is an instrument. Else the byte is a slide: in version
/// 10 its bits 1 to 6 are the speed and bit 0 says down; in version 15 it is
/// passed over; in the other versions it takes a second byte, the speed is
/// the low byte of the two, and bit 6 of the second byte says down. Where
/// the second byte and one more are not there, the cell is read again from
/// two bytes before, taking the byte before the cell as its note.
pub open spec fn spec_slide_part(version: usize, source: Seq<u8>, at: int) -> Result<
    SlidePart,
    DecodeError,
> {
    let b = source[at];
    if at >= source.len() {
        Err(DecodeError::TruncatedInput)
    } else if b < 128 {
        Ok(
            SlidePart {
                instrument: Some(b as usize),
                effect_type: 0,
                effect_parameter: 0,
                note_at: at + 1,
            },
        )
    } else if version == 10 {
        let p = (b % 128) - (b % 2);
        Ok(
            SlidePart {
                instrument: None,
                effect_type: if p == 0 {
                    0
                } else if b % 2 == 0 {
                    1
                } else {
                    2
                },
                effect_parameter: (p / 2) as u8,
                note_at: at + 1,
            },
        )
    } else if version == 15 {
        Ok(SlidePart { instrument: None, effect_type: 0, effect_parameter: 0, note_at: at + 1 })
    } else if at + 2 >= source.len() {
        if at < 2 {
            Err(DecodeError::MalformedField)
        } else {
            Ok(
                SlidePart {
                    instrument: None,
                    effect_type: 0,
                    effect_parameter: 0,
                    note_at: at - 1,
                },
            )
        }
    } else {
        let second = source[at + 1];
        Ok(
            SlidePart {
                instrument: None,
                effect_type: if (b % 64) == 0 && second == 0 {
                    0
                } else if (second / 64) % 2 == 0 {
                    1
                } else {
                    2
                },
                effect_parameter: if (b % 64) == 0 && second == 0 {
                    0
                } else {
                    second
                },
                note_at: at + 2,
            },
        )
    }
}

/// A cell of a track: its slot, the place after it, and the instrument that
/// was set last.
pub struct SidCell {
    pub slot: PatternSlot,
    pub next: int,
    pub last_instr: Option<usize>,
}

/// The cell at `index`, when `last_instr` is the instrument that was set
/// last; or an error where the track ends within the cell.
///
/// A released cell takes the instrument that was set last, and the volume
/// 0x50, or 0x10 where it has no note.
pub open spec fn spec_sid_cell(
    version: usize,
    source: Seq<u8>,
    index: int,
    last_instr: Option<usize>,
) -> Result<SidCell, DecodeError> {
    let head = cell_head(source[index]);
    let empty = PatternSlot::spec_default();
    if !head.append {
        Ok(
            SidCell {
                slot: if head.release {
                    PatternSlot { volume: 0x10, instrument: last_instr, ..empty }
                } else {
                    empty
                },
                next: index + 1,
                last_instr,
            },
        )
    } else {
        let part = if head.instr_or_portamento {
            spec_slide_part(version, source, index + 1)
        } else {
            Ok(
                SlidePart {
                    instrument: None,
                    effect_type: 0,
                    effect_parameter: 0,
                    note_at: index + 1,
                },
            )
        };
        match part {
            Err(e) => Err(e),
            Ok(p) => {
                if p.note_at >= source.len() {
                    Err(DecodeError::TruncatedInput)
                } else {
                    let now = match p.instrument {
                        Some(i) => Some(i),
                        None => last_instr,
                    };
                    let note = Pitch::spec_from_value(sid_note(source[p.note_at]));
                    Ok(
                        SidCell {
                            slot: PatternSlot {
                                note,
                                instrument: if head.release {
                                    now
                                } else {
                                    p.instrument
                                },
                                volume: if head.release {
                                    0x50
                                } else {
                                    0
                                },
                                effect_type: p.effect_type,
                                effect_parameter: p.effect_parameter,
                            },
                            next: p.note_at + 1,
                            last_instr: now,
                        },
                    )
                }
            },
        }
    }
}

/// `n` empty slots.
pub open spec fn empty_slots(n: int) -> Seq<PatternSlot> {
    Seq::new(n as nat, |i: int| PatternSlot::spec_default())
}

/// The slots of the track from `index` on: each cell and the empty rows
/// after it, up to the byte 255; or an error where the track has no end or
/// a cell cannot be read.
pub open spec fn spec_get_track(
    version: usize,
    source: Seq<u8>,
    index: int,
    last_instr: Option<usize>,
) -> Result<Seq<PatternSlot>, DecodeError>
    decreases source.len() - index,
{
    if index < 0 || index >= source.len() {
        Err(DecodeError::TruncatedInput)
    } else if source[index] == 255 {
        Ok(Seq::empty())
    } else {
        match spec_sid_cell(version, source, index, last_instr) {
            Err(e) => Err(e),
            Ok(cell) => {
                if cell.next <= index {
                    Err(DecodeError::MalformedField)
                } else {
                    match spec_get_track(version, source, cell.next, cell.last_instr) {
                        Err(e) => Err(e),
                        Ok(rest) => Ok(
                            seq![cell.slot] + empty_slots(cell_head(source[index]).length) + rest,
                        ),
                    }
                }
            },
        }
    }
}

/// A result with the slots `front` put before those it holds.
pub open spec fn prepend_track(front: Seq<PatternSlot>, r: Result<Seq<PatternSlot>, DecodeError>) -> Result<
    Seq<PatternSlot>,
    DecodeError,
> {
    match r {
        Ok(rest) => Ok(front + rest),
        Err(e) => Err(e),
    }
}

/// The parts of a head byte, as masks give them.
pub proof fn lemma_cell_head(head: u8)
    ensures
        (head & 0b0001_1111) as int == cell_head(head).length,
        ((head & 0b0010_0000) == 0) == cell_head(head).release,
        ((head & 0b0100_0000) == 0) == cell_head(head).append,
        ((head & 0b1000_0000) != 0) == cell_head(head).instr_or_portamento,
{
    assert((head & 0b0001_1111) == head % 32 && ((head & 0b0010_0000) == 0) == ((head / 32) % 2
        == 0) && ((head & 0b0100_0000) == 0) == ((head / 64) % 2 == 0) && ((head & 0b1000_0000)
        != 0) == (head >= 128)) by (bit_vector);
}

/// The note that a note byte stands for.
pub fn note_of(byte: u8) -> (r: Pitch)
    ensures
        r == Pitch::spec_from_value(sid_note(byte)),
        r.spec_value() == sid_note(byte),
        sid_note(byte) <= 96,
{
    assert((byte & 0b0111_1111) == byte % 128) by (bit_vector);
    let n: u8 = byte & 0b0111_1111;
    assert((n & 0b0011_1111) == n % 64) by (bit_vector);
    let note: u8 = if n > 8 * 12 {
        match n {
            97 => 0,
            98 => 12,
            100 => 3,
            104 => 65,
            105 => 65,
            107 => 6,
            127 => 0,
            _ => n & 0b0011_1111,
        }
    } else {
        n
    };
    match Pitch::try_from(note) {
        Ok(p) => p,
        Err(_) => Pitch::Empty,
    }
}

impl PatternHelper {
    pub fn new(version: usize, songs: Vec<Vec<usize>>, channels: Vec<Vec<u8>>, tracks: Vec<Vec<u8>>) -> (r:
        PatternHelper)
        ensures
            r.version == version,
            r.songs == songs,
            r.channels == channels,
            r.tracks == tracks,
    {
        PatternHelper { version, songs, channels, tracks }
    }

    fn slide_part(&self, source: &Vec<u8>, at: usize) -> (r: Result<
        (Option<usize>, u8, u8, usize),
        DecodeError,
    >)
        ensures
            match spec_slide_part(self.version, source@, at as int) {
                Ok(p) => r == Ok::<(Option<usize>, u8, u8, usize), DecodeError>(
                    (p.instrument, p.effect_type, p.effect_parameter, p.note_at as usize),
                ) && 0 <= p.note_at <= source@.len() + 1,
                Err(e) => r == Err::<(Option<usize>, u8, u8, usize), DecodeError>(e),
            },
    {
        if at >= source.len() {
            return Err(DecodeError::TruncatedInput);
        }
        let b: u8 = source[at];
        proof {
            assert(((b & 0b1000_0000) == 0) == (b < 128) && (b & 0b0111_1111) == b % 128 && (b
                & 0b0111_1110) == (b % 128) - (b % 2) && ((b & 0b0111_1110) >> 1) == ((b % 128) - (b
                % 2)) / 2 && (b & 1) == b % 2) by (bit_vector);
        }
        if b & 0b1000_0000 == 0 {
            return Ok((Some((b & 0b0111_1111) as usize), 0, 0, at + 1));
        }
        if self.version == 10 {
            let p: u8 = b & 0b0111_1110;
            if p != 0 {
                let fx: u8 = if b & 1 == 0 {
                    1
                } else {
                    2
                };
                Ok((None, fx, p >> 1, at + 1))
            } else {
                Ok((None, 0, 0, at + 1))
            }
        } else if self.version == 15 {
            Ok((None, 0, 0, at + 1))
        } else if source.len() - at <= 2 {
            if at < 2 {
                Err(DecodeError::MalformedField)
            } else {
                Ok((None, 0, 0, at - 1))
            }
        } else {
            let second: u8 = source[at + 1];
            proof {
                assert(((((b as u16 & 0b0011_1111) << 8) | second as u16) == 0 <==> ((b % 64) == 0
                    && second == 0)) && ((((b as u16 & 0b0011_1111) << 8) | second as u16) & 0xFF)
                    == second as u16 && ((second & 0b0100_0000) == 0) == ((second / 64) % 2 == 0))
                    by (bit_vector);
            }
            let p: u16 = ((b as u16 & 0b0011_1111) << 8) | second as u16;
            if p != 0 {
                let fx: u8 = if second & 0b0100_0000 == 0 {
                    1
                } else {
                    2
                };
                Ok((None, fx, (p & 0xFF) as u8, at + 2))
            } else {
                Ok((None, 0, 0, at + 2))
            }
        }
    }

    fn sid_cell(&self, source: &Vec<u8>, index: usize, last_instr: Option<usize>) -> (r: Result<
        (PatternSlot, usize, Option<usize>),
        DecodeError,
    >)
        requires
            index < source.len(),
        ensures
            match spec_sid_cell(self.version, source@, index as int, last_instr) {
                Ok(c) => r == Ok::<(PatternSlot, usize, Option<usize>), DecodeError>(
                    (c.slot, c.next as usize, c.last_instr),
                ) && 0 <= c.next <= source@.len(),
                Err(e) => r == Err::<(PatternSlot, usize, Option<usize>), DecodeError>(e),
            },
    {
        let head: u8 = source[index];
        proof {
            lemma_cell_head(head);
        }
        let release: bool = (head & 0b0010_0000) == 0;
        let append: bool = (head & 0b0100_0000) == 0;
        let instr_or_portamento: bool = (head & 0b1000_0000) != 0;
        let mut current = PatternSlot::default();
        let mut last = last_instr;
        let mut next: usize = index + 1;
        if append {
            if instr_or_portamento {
                let (instrument, fx, param, note_at) = match self.slide_part(source, index + 1) {
                    Ok(p) => p,
                    Err(e) => {
                        return Err(e);
                    },
                };
                current.instrument = instrument;
                current.effect_type = fx;
                current.effect_parameter = param;
                match instrument {
                    Some(i) => {
                        last = Some(i);
                    },
                    None => {},
                }
                next = note_at;
            }
            if next >= source.len() {
                return Err(DecodeError::TruncatedInput);
            }
            current.note = note_of(source[next]);
            next = next + 1;
        }
        if release {
            if current.note.is_none() {
                current.volume = 0x10;
            } else {
                current.volume = 0x50;
            }
            current.instrument = last;
        }
        Ok((current, next, last))
    }

    /// Reads a track into slots, one for each row.
    pub fn get_track(&self, source: &Vec<u8>) -> (r: Result<Vec<PatternSlot>, DecodeError>)
        ensures
            match spec_get_track(self.version, source@, 0, None) {
                Ok(slots) => r.is_ok() && r.unwrap()@ == slots,
                Err(e) => r.is_err() && r.unwrap_err() == e,
            },
    {
        let mut track: Vec<PatternSlot> = Vec::new();
        let mut index: usize = 0;
        let mut last_instr: Option<usize> = None;
        let ghost whole = spec_get_track(self.version, source@, 0, None);
        proof {
            match whole {
                Ok(all) => {
                    assert(Seq::<PatternSlot>::empty() + all =~= all);
                },
                Err(_) => {},
            }
        }
        loop
            invariant
                0 <= index <= source@.len(),
                whole == spec_get_track(self.version, source@, 0, None),
                whole == prepend_track(
                    track@,
                    spec_get_track(self.version, source@, index as int, last_instr),
                ),
            decreases source@.len() - index,
        {
            if index >= source.len() {
                return Err(DecodeError::TruncatedInput);
            }
            if source[index] == 255 {
                proof {
                    assert(track@ + Seq::<PatternSlot>::empty() =~= track@);
                }
                return Ok(track);
            }
            let head: u8 = source[index];
            proof {
                lemma_cell_head(head);
            }
            let length: u8 = head & 0b0001_1111;
            let (slot, next, last) = match self.sid_cell(source, index, last_instr) {
                Ok(c) => c,
                Err(e) => {
                    return Err(e);
                },
            };
            if next <= index {
                return Err(DecodeError::MalformedField);
            }
            let ghost before = track@;
            track.push(slot);
            let mut k: u8 = 0;
            while k < length
                invariant
                    0 <= k <= length,
                    track@ == before + seq![slot] + empty_slots(k as int),
                decreases length - k,
            {
                track.push(PatternSlot::default());
                proof {
                    assert(empty_slots(k + 1) =~= empty_slots(k as int).push(
                        PatternSlot::spec_default(),
                    ));
                }
                k += 1;
            }
            proof {
                assert(before + seq![slot] + empty_slots(0) =~= before + seq![slot]);
                match spec_get_track(self.version, source@, next as int, last) {
                    Ok(rest) => {
                        assert(before + (seq![slot] + empty_slots(length as int) + rest)
                            =~= track@ + rest);
                    },
                    Err(_) => {},
                }
            }
            index = next;
            last_instr = last;
        }
    }
}

/// The index of the first pattern at or after `from` that holds what
/// `pattern` holds, or the number of patterns where there is none.
pub open spec fn find_pattern(
    patterns: Seq<Seq<Seq<PatternSlot>>>,
    pattern: Seq<Seq<PatternSlot>>,
    from: int,
) -> int
    decreases patterns.len() - from,
{
    if from < 0 || from >= patterns.len() {
        patterns.len() as int
    } else if patterns[from] == pattern {
        from
    } else {
        find_pattern(patterns, pattern, from + 1)
    }
}

/// The different patterns among the first `n` of `source`, in the order in
/// which they come first, and for each of the `n` the index of its like
/// among them.
pub open spec fn spec_cleanup_patterns(source: Seq<Seq<Seq<PatternSlot>>>, n: int) -> (
    Seq<Seq<Seq<PatternSlot>>>,
    Seq<usize>,
)
    decreases n,
{
    if n <= 0 {
        (Seq::empty(), Seq::empty())
    } else {
        let (dest, order) = spec_cleanup_patterns(source, n - 1);
        let at = find_pattern(dest, source[n - 1], 0);
        if at < dest.len() {
            (dest, order.push(at as usize))
        } else {
            (dest.push(source[n - 1]), order.push(dest.len() as usize))
        }
    }
}

/// The most rows of a pattern after large patterns were split.
pub const MAX_ROWS: usize = 256;

/// A pattern cut into patterns of at most `max` rows: all but the last
/// have `max` rows. A pattern of at most `max` rows stays whole.
pub open spec fn spec_chunks(pattern: Seq<Seq<PatternSlot>>, max: int) -> Seq<
    Seq<Seq<PatternSlot>>,
>
    decreases pattern.len(),
{
    if max <= 0 || pattern.len() <= max {
        seq![pattern]
    } else {
        seq![pattern.take(max)] + spec_chunks(pattern.skip(max), max)
    }
}

/// The patterns with each large pattern cut into patterns of at most 256
/// rows, which stand in its place.
pub open spec fn spec_split_large_patterns(patterns: Seq<Seq<Seq<PatternSlot>>>) -> Seq<
    Seq<Seq<PatternSlot>>,
>
    decreases patterns.len(),
{
    if patterns.len() == 0 {
        Seq::empty()
    } else {
        spec_split_large_patterns(patterns.drop_last()) + spec_chunks(
            patterns.last(),
            MAX_ROWS as int,
        )
    }
}

/// The first pattern found for a pattern holds the same, and no pattern
/// before it does.
pub proof fn lemma_find_pattern(
    patterns: Seq<Seq<Seq<PatternSlot>>>,
    pattern: Seq<Seq<PatternSlot>>,
    from: int,
)
    requires
        0 <= from <= patterns.len(),
    ensures
        from <= find_pattern(patterns, pattern, from) <= patterns.len(),
        find_pattern(patterns, pattern, from) < patterns.len() ==> patterns[find_pattern(
            patterns,
            pattern,
            from,
        )] == pattern,
        forall|k: int|
            from <= k < find_pattern(patterns, pattern, from) ==> (#[trigger] patterns[k])
                != pattern,
    decreases patterns.len() - from,
{
    if from < patterns.len() && patterns[from] != pattern {
        lemma_find_pattern(patterns, pattern, from + 1);
    }
}

/// After patterns were cleaned up, every pattern of the source is found
/// under its index, and no two patterns that are left hold the same.
pub proof fn lemma_cleanup_patterns(source: Seq<Seq<Seq<PatternSlot>>>, n: int)
    requires
        0 <= n <= source.len() <= usize::MAX,
    ensures
        spec_cleanup_patterns(source, n).1.len() == n,
        spec_cleanup_patterns(source, n).0.len() <= n,
        forall|i: int|
            0 <= i < n ==> (#[trigger] spec_cleanup_patterns(source, n).1[i])
                < spec_cleanup_patterns(source, n).0.len() && spec_cleanup_patterns(
                source,
                n,
            ).0[spec_cleanup_patterns(source, n).1[i] as int] == source[i],
        forall|a: int, b: int|
            0 <= a < b < spec_cleanup_patterns(source, n).0.len() ==> (
            #[trigger] spec_cleanup_patterns(source, n).0[a]) != (#[trigger] spec_cleanup_patterns(
                source,
                n,
            ).0[b]),
    decreases n,
{
    if n > 0 {
        lemma_cleanup_patterns(source, n - 1);
        let (dest, order) = spec_cleanup_patterns(source, n - 1);
        let now = spec_cleanup_patterns(source, n);
        let at = find_pattern(dest, source[n - 1], 0);
        lemma_find_pattern(dest, source[n - 1], 0);
        assert forall|i: int| 0 <= i < n implies (#[trigger] now.1[i]) < now.0.len()
            && now.0[now.1[i] as int] == source[i] by {
            if i < n - 1 {
                assert(now.1[i] == order[i]);
                assert(now.0[order[i] as int] == dest[order[i] as int]);
            }
        }
        assert forall|a: int, b: int| 0 <= a < b < now.0.len() implies (#[trigger] now.0[a]) != (
        #[trigger] now.0[b]) by {
            if b < dest.len() {
                assert(now.0[a] == dest[a] && now.0[b] == dest[b]);
            } else {
                assert(now.0[a] == dest[a]);
            }
        }
    }
}

/// Whether two rows hold the same slots.
pub fn rows_equal(a: &Vec<PatternSlot>, b: &Vec<PatternSlot>) -> (r: bool)
    ensures
        r == (a@ == b@),
{
    if a.len() != b.len() {
        return false;
    }
    let mut i: usize = 0;
    while i < a.len()
        invariant
            0 <= i <= a.len(),
            a@.len() == b@.len(),
            forall|k: int| 0 <= k < i ==> a@[k] == b@[k],
        decreases a.len() - i,
    {
        if !(a[i] == b[i]) {
            return false;
        }
        i += 1;
    }
    assert(a@ =~= b@);
    true
}

/// Whether two patterns hold the same rows.
pub fn patterns_equal(a: &Vec<Vec<PatternSlot>>, b: &Vec<Vec<PatternSlot>>) -> (r: bool)
    ensures
        r == (a.deep_view() == b.deep_view()),
{
    if a.len() != b.len() {
        proof {
            assert(a.deep_view().len() != b.deep_view().len());
        }
        return false;
    }
    let mut i: usize = 0;
    while i < a.len()
        invariant
            0 <= i <= a.len(),
            a@.len() == b@.len(),
            forall|k: int| 0 <= k < i ==> (#[trigger] a@[k])@ == b@[k]@,
        decreases a.len() - i,
    {
        if !rows_equal(&a[i], &b[i]) {
            proof {
                crate::it_pattern::lemma_row_deep_view(a@[i as int]);
                crate::it_pattern::lemma_row_deep_view(b@[i as int]);
                assert(a.deep_view()[i as int] != b.deep_view()[i as int]);
            }
            return false;
        }
        i += 1;
    }
    proof {
        assert forall|k: int| 0 <= k < a@.len() implies a.deep_view()[k] == b.deep_view()[k] by {
            crate::it_pattern::lemma_row_deep_view(a@[k]);
            crate::it_pattern::lemma_row_deep_view(b@[k]);
        }
        assert(a.deep_view() =~= b.deep_view());
    }
    true
}

/// A copy of the rows of a pattern from row `from` up to row `to`.
pub fn copy_rows(pattern: &Vec<Vec<PatternSlot>>, from: usize, to: usize) -> (r: Vec<
    Vec<PatternSlot>,
>)
    requires
        from <= to <= pattern.len(),
    ensures
        r.deep_view() == pattern.deep_view().subrange(from as int, to as int),
{
    let mut out: Vec<Vec<PatternSlot>> = Vec::new();
    let mut i: usize = from;
    while i < to
        invariant
            from <= i <= to <= pattern.len(),
            out@.len() == i - from,
            forall|k: int| 0 <= k < i - from ==> (#[trigger] out@[k])@ == pattern@[from + k]@,
        decreases to - i,
    {
        let row = &pattern[i];
        let mut new_row: Vec<PatternSlot> = Vec::new();
        let mut c: usize = 0;
        while c < row.len()
            invariant
                0 <= c <= row.len(),
                new_row@ == row@.take(c as int),
            decreases row.len() - c,
        {
            new_row.push(row[c]);
            assert(row@.take(c + 1) =~= row@.take(c as int).push(row@[c as int]));
            c += 1;
        }
        assert(row@.take(row.len() as int) =~= row@);
        out.push(new_row);
        i += 1;
    }
    proof {
        let want = pattern.deep_view().subrange(from as int, to as int);
        assert forall|k: int| 0 <= k < out@.len() implies (#[trigger] out.deep_view()[k])
            == want[k] by {
            crate::it_pattern::lemma_row_deep_view(out@[k]);
            crate::it_pattern::lemma_row_deep_view(pattern@[from + k]);
        }
        assert(out.deep_view() =~= want);
    }
    out
}

impl PatternHelper {
    /// Reads all tracks into slots.
    pub fn get_tracks(&self) -> (r: Result<Vec<Vec<PatternSlot>>, DecodeError>)
        ensures
            r.is_ok() ==> r.unwrap()@.len() == self.tracks@.len() && forall|i: int|
                0 <= i < self.tracks@.len() ==> spec_get_track(
                    self.version,
                    self.tracks@[i]@,
                    0,
                    None,
                ) == Ok::<Seq<PatternSlot>, DecodeError>((#[trigger] r.unwrap()@[i])@),
            r.is_err() ==> exists|i: int|
                0 <= i < self.tracks@.len() && (#[trigger] spec_get_track(
                    self.version,
                    self.tracks@[i]@,
                    0,
                    None,
                )) == Err::<Seq<PatternSlot>, DecodeError>(r.unwrap_err()),
    {
        let mut tracks: Vec<Vec<PatternSlot>> = Vec::new();
        let mut i: usize = 0;
        while i < self.tracks.len()
            invariant
                0 <= i <= self.tracks@.len(),
                tracks@.len() == i,
                forall|k: int|
                    0 <= k < i ==> spec_get_track(self.version, self.tracks@[k]@, 0, None) == Ok::<
                        Seq<PatternSlot>,
                        DecodeError,
                    >((#[trigger] tracks@[k])@),
            decreases self.tracks@.len() - i,
        {
            match self.get_track(&self.tracks[i]) {
                Ok(t) => {
                    tracks.push(t);
                },
                Err(e) => {
                    return Err(e);
                },
            }
            i += 1;
        }
        Ok(tracks)
    }

    /// The track lists of the channels of a song; none where the song or
    /// one of its channels is not there.
    pub fn get_pattern_order(&self, song_number: usize) -> (r: Option<Vec<&Vec<u8>>>)
        ensures
            r.is_some() == (song_number < self.songs@.len() && forall|k: int|
                0 <= k < self.songs@[song_number as int]@.len() ==> (
                #[trigger] self.songs@[song_number as int]@[k]) < self.channels@.len()),
            r.is_some() ==> r.unwrap()@.len() == self.songs@[song_number as int]@.len()
                && forall|k: int|
                0 <= k < r.unwrap()@.len() ==> *(#[trigger] r.unwrap()@[k])
                    == self.channels@[self.songs@[song_number as int]@[k] as int],
    {
        if song_number >= self.songs.len() {
            return None;
        }
        let song = &self.songs[song_number];
        let mut pattern_order: Vec<&Vec<u8>> = Vec::new();
        let mut i: usize = 0;
        while i < song.len()
            invariant
                0 <= i <= song@.len(),
                song@ == self.songs@[song_number as int]@,
                pattern_order@.len() == i,
                forall|k: int| 0 <= k < i ==> (#[trigger] song@[k]) < self.channels@.len(),
                forall|k: int|
                    0 <= k < i ==> *(#[trigger] pattern_order@[k]) == self.channels@[song@[k] as int],
            decreases song@.len() - i,
        {
            let s_index: usize = song[i];
            if s_index >= self.channels.len() {
                return None;
            }
            pattern_order.push(&self.channels[s_index]);
            i += 1;
        }
        Some(pattern_order)
    }

    /// Leaves one of each pattern: gives the different patterns in the
    /// order in which they come first, and for each pattern of the source
    /// the index of its like among them.
    pub fn cleanup_patterns(source: &Vec<Vec<Vec<PatternSlot>>>) -> (r: (
        Vec<Vec<Vec<PatternSlot>>>,
        Vec<usize>,
    ))
        ensures
            (r.0.deep_view(), r.1@) == spec_cleanup_patterns(
                source.deep_view(),
                source@.len() as int,
            ),
            r.1@.len() == source@.len(),
            forall|i: int|
                0 <= i < source@.len() ==> (#[trigger] r.1@[i]) < r.0@.len()
                    && r.0.deep_view()[r.1@[i] as int] == source.deep_view()[i],
    {
        let mut dest: Vec<Vec<Vec<PatternSlot>>> = Vec::new();
        let mut order: Vec<usize> = Vec::new();
        let mut n: usize = 0;
        while n < source.len()
            invariant
                0 <= n <= source@.len(),
                dest@.len() <= n,
                (dest.deep_view(), order@) == spec_cleanup_patterns(source.deep_view(), n as int),
            decreases source@.len() - n,
        {
            let pattern = &source[n];
            let mut j: usize = 0;
            while j < dest.len() && !patterns_equal(&dest[j], pattern)
                invariant
                    0 <= j <= dest@.len(),
                    pattern.deep_view() == source.deep_view()[n as int],
                    find_pattern(dest.deep_view(), pattern.deep_view(), 0) == find_pattern(
                        dest.deep_view(),
                        pattern.deep_view(),
                        j as int,
                    ),
                decreases dest@.len() - j,
            {
                j += 1;
            }
            let ghost before = dest.deep_view();
            if j < dest.len() {
                order.push(j);
            } else {
                order.push(dest.len());
                let copy = copy_rows(pattern, 0, pattern.len());
                proof {
                    assert(pattern.deep_view().subrange(0, pattern@.len() as int)
                        =~= pattern.deep_view());
                }
                dest.push(copy);
                proof {
                    assert(dest.deep_view() =~= before.push(pattern.deep_view()));
                }
            }
            n += 1;
        }
        proof {
            lemma_cleanup_patterns(source.deep_view(), source@.len() as int);
        }
        (dest, order)
    }

    /// Cuts each pattern of more than 256 rows into patterns of at most 256
    /// rows, which take its place.
    pub fn split_large_patterns(patterns: &mut Vec<Vec<Vec<PatternSlot>>>)
        ensures
            final(patterns).deep_view() == spec_split_large_patterns(old(patterns).deep_view()),
    {
        let mut out: Vec<Vec<Vec<PatternSlot>>> = Vec::new();
        let mut i: usize = 0;
        while i < patterns.len()
            invariant
                0 <= i <= patterns@.len(),
                *patterns == *old(patterns),
                out.deep_view() == spec_split_large_patterns(
                    patterns.deep_view().take(i as int),
                ),
            decreases patterns@.len() - i,
        {
            let current = &patterns[i];
            let ghost done = out.deep_view();
            let ghost whole = current.deep_view();
            let mut start: usize = 0;
            let ghost mut front = Seq::<Seq<Seq<PatternSlot>>>::empty();
            proof {
                assert(patterns.deep_view().take(i + 1).drop_last() =~= patterns.deep_view().take(
                    i as int,
                ));
                assert(whole.skip(0) =~= whole);
                assert(done + front =~= done);
                assert(front + spec_chunks(whole, MAX_ROWS as int) =~= spec_chunks(
                    whole,
                    MAX_ROWS as int,
                ));
            }
            while current.len() - start > MAX_ROWS
                invariant
                    0 <= start <= current@.len(),
                    whole == current.deep_view(),
                    out.deep_view() == done + front,
                    front + spec_chunks(whole.skip(start as int), MAX_ROWS as int) == spec_chunks(
                        whole,
                        MAX_ROWS as int,
                    ),
                decreases current@.len() - start,
            {
                let ghost was = out.deep_view();
                let piece = copy_rows(current, start, start + MAX_ROWS);
                out.push(piece);
                proof {
                    let rest = whole.skip(start as int);
                    assert(rest.take(MAX_ROWS as int) =~= whole.subrange(
                        start as int,
                        start + MAX_ROWS,
                    ));
                    assert(rest.skip(MAX_ROWS as int) =~= whole.skip(start + MAX_ROWS));
                    let next = front.push(piece.deep_view());
                    assert(out.deep_view() =~= was.push(piece.deep_view()));
                    assert(out.deep_view() =~= done + next);
                    assert(next + spec_chunks(whole.skip(start + MAX_ROWS), MAX_ROWS as int)
                        =~= front + spec_chunks(rest, MAX_ROWS as int));
                    front = next;
                }
                start += MAX_ROWS;
            }
            let ghost was = out.deep_view();
            let last = copy_rows(current, start, current.len());
            out.push(last);
            proof {
                assert(whole.skip(start as int) =~= whole.subrange(
                    start as int,
                    current@.len() as int,
                ));
                assert(out.deep_view() =~= was.push(last.deep_view()));
                assert(out.deep_view() =~= done + (front + seq![last.deep_view()]));
                assert(patterns.deep_view().take(i + 1).last() == whole);
            }
            i += 1;
        }
        proof {
            assert(patterns.deep_view().take(patterns@.len() as int) =~= patterns.deep_view());
        }
        *patterns = out;
    }
}

} // verus!
