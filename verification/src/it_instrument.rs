use crate::amount::Amount;
use crate::envelope::{sort_points, spec_sort_points, Envelope, EnvelopePoint};
use crate::instr_default::{DuplicateCheckAction, DuplicateCheckType, NewNoteAction};
use crate::it_sample_header::has_bit;
use crate::pitch::Pitch;
use vstd::prelude::*;

verus! {

/// The header of an instrument in an IT file older than version 2.
pub struct ItInstrumentHeaderPre2 {
    /// "IMPI"
    pub id: String,
    pub dos_filename: String,
    pub reserved1: u8,
    /// Bit 0: the volume envelope is used. Bit 1: its loop. Bit 2: its
    /// sustain loop.
    pub flags: u8,
    pub loop_start: u8,
    pub loop_end: u8,
    pub sustain_loop_start: u8,
    pub sustain_loop_end: u8,
    pub reserved2: u16,
    pub fadeout: u16,
    /// New note action: 0 cut, 1 continue, 2 note off, 3 fade out.
    pub nna: u8,
    /// Duplicate note check.
    pub dnc: u8,
    pub tracker_version: u16,
    pub number_of_samples: u8,
    pub reserved3: u8,
    pub instrument_name: String,
    pub reserved4: [u8; 6],
    /// For each of 120 notes, the note to play and the sample to play it on.
    pub note_sample_keyboard_table: [(u8, u8); 120],
}

/// The volume envelope of an instrument older than version 2.
pub struct ItEnvelopePre2 {
    pub envelope: [u8; 200],
    /// Tick and magnitude of each node.
    pub node_points: [(u8, u8); 25],
}

/// The header of an instrument in an IT file from version 2 on.
pub struct ItInstrumentHeaderPost2 {
    /// "IMPI"
    pub id: String,
    pub dos_filename: String,
    pub reserved1: u8,
    /// New note action: 0 cut, 1 continue, 2 note off, 3 fade out.
    pub nna: u8,
    /// 0 off, 1 note, 2 sample, 3 instrument.
    pub duplicate_check_type: u8,
    /// 0 cut, 1 note off, 2 fade out.
    pub duplicate_check_action: u8,
    pub fadeout: i16,
    pub pitch_pan_separation: i8,
    pub pitch_pan_center: u8,
    pub global_volume: u8,
    pub default_pan: u8,
    pub random_volume_variation: u8,
    pub random_pan_variation: u8,
    pub tracker_version: u16,
    pub num_samples: u8,
    pub reserved2: u8,
    pub instrument_name: String,
    pub initial_filter_cutoff: u8,
    pub initial_filter_resonance: u8,
    pub midi_channel: u8,
    pub midi_program: u8,
    pub midi_bank: u16,
    /// For each of 120 notes, the note to play and the sample to play it on.
    pub note_sample_keyboard_table: [(u8, u8); 120],
}

/// An envelope of an instrument from version 2 on.
pub struct ItEnvelopePost2 {
    /// Bit 0: the envelope is used. Bit 1: its loop. Bit 2: its sustain
    /// loop. Bit 7: the pitch envelope is a filter.
    pub flags: u8,
    pub node_count: u8,
    pub loop_start: u8,
    pub loop_end: u8,
    pub sustain_loop_start: u8,
    pub sustain_loop_end: u8,
    /// Tick and magnitude of each node.
    pub node_points: [(u8, u16); 25],
}

/// An instrument older than version 2.
pub struct ItInstrumentPre2 {
    pub instr: ItInstrumentHeaderPre2,
    pub volume_envelope: ItEnvelopePre2,
}

/// An instrument from version 2 on.
pub struct ItInstrumentPost2 {
    pub instr: ItInstrumentHeaderPost2,
    pub volume_envelope: ItEnvelopePost2,
    pub panning_envelope: ItEnvelopePost2,
    pub pitch_envelope: ItEnvelopePost2,
}

/// An instrument of an IT file.
pub enum ItInstrument {
    Pre2(ItInstrumentPre2),
    Post2(ItInstrumentPost2),
}

/// The envelope point of a node: its tick as the frame, and its magnitude in
/// sixty-fourths as the value.
pub open spec fn node_point(tick: u8, magnitude: int) -> EnvelopePoint {
    EnvelopePoint { frame: tick as usize, value: Amount::spec_ratio(magnitude, 64) }
}

/// Whether the text is "IMPI".
pub fn is_impi(id: &String) -> (r: bool)
    ensures
        r == (id@ == "IMPI"@),
{
    proof {
        reveal_strlit("IMPI");
    }
    let s = id.as_str();
    if s.unicode_len() != 4 {
        return false;
    }
    let r = s.get_char(0) == 'I' && s.get_char(1) == 'M' && s.get_char(2) == 'P' && s.get_char(3)
        == 'I';
    proof {
        if r {
            assert(id@ =~= "IMPI"@);
        }
    }
    r
}

impl ItInstrumentHeaderPre2 {
    /// Whether the header starts with "IMPI".
    pub fn is_it_instrument(&self) -> (r: bool)
        ensures
            r == (self.id@ == "IMPI"@),
    {
        is_impi(&self.id)
    }
}

impl ItEnvelopePre2 {
    /// The nodes as envelope points, before they are put in order.
    pub open spec fn spec_points(&self) -> Seq<EnvelopePoint> {
        Seq::new(
            25,
            |i: int| node_point(self.node_points@[i].0, self.node_points@[i].1 as int),
        )
    }

    /// The points of the envelope, in the order of their frames.
    pub fn to_envelope(&self) -> (r: Vec<EnvelopePoint>)
        ensures
            r@ == spec_sort_points(self.spec_points()),
    {
        let mut points: Vec<EnvelopePoint> = Vec::new();
        let mut i: usize = 0;
        while i < 25
            invariant
                0 <= i <= 25,
                points@.len() == i,
                forall|k: int|
                    0 <= k < i ==> (#[trigger] points@[k]) == node_point(
                        self.node_points@[k].0,
                        self.node_points@[k].1 as int,
                    ),
            decreases 25 - i,
        {
            let (tick, magnitude) = self.node_points[i];
            points.push(
                EnvelopePoint { frame: tick as usize, value: Amount::ratio(magnitude as i32, 64) },
            );
            i += 1;
        }
        assert(points@ =~= self.spec_points());
        sort_points(&points)
    }
}

impl ItInstrumentHeaderPost2 {
    /// Whether the header starts with "IMPI".
    pub fn is_it_instrument(&self) -> (r: bool)
        ensures
            r == (self.id@ == "IMPI"@),
    {
        is_impi(&self.id)
    }
}

impl ItEnvelopePost2 {
    /// The nodes as envelope points, before they are put in order.
    pub open spec fn spec_points(&self) -> Seq<EnvelopePoint> {
        Seq::new(
            25,
            |i: int| node_point(self.node_points@[i].0, self.node_points@[i].1 as int),
        )
    }

    /// The points of the envelope, in the order of their frames.
    pub fn to_envelope(&self) -> (r: Vec<EnvelopePoint>)
        ensures
            r@ == spec_sort_points(self.spec_points()),
    {
        let mut points: Vec<EnvelopePoint> = Vec::new();
        let mut i: usize = 0;
        while i < 25
            invariant
                0 <= i <= 25,
                points@.len() == i,
                forall|k: int|
                    0 <= k < i ==> (#[trigger] points@[k]) == node_point(
                        self.node_points@[k].0,
                        self.node_points@[k].1 as int,
                    ),
            decreases 25 - i,
        {
            let (tick, magnitude) = self.node_points[i];
            points.push(
                EnvelopePoint { frame: tick as usize, value: Amount::ratio(magnitude as i32, 64) },
            );
            i += 1;
        }
        assert(points@ =~= self.spec_points());
        sort_points(&points)
    }

    /// The envelope: its points in order, its switches from the flags, and
    /// its ranges as the header gives them.
    pub fn to_envelope_struct(&self) -> (r: Envelope)
        ensures
            r.enabled == has_bit(self.flags, 0b0000_0001),
            r.point@ == spec_sort_points(self.spec_points()),
            r.sustain_enabled == has_bit(self.flags, 0b0000_0100),
            r.sustain_start_point == self.sustain_loop_start,
            r.sustain_end_point == self.sustain_loop_end,
            r.loop_enabled == has_bit(self.flags, 0b0000_0010),
            r.loop_start_point == self.loop_start,
            r.loop_end_point == self.loop_end,
    {
        Envelope {
            enabled: self.flags & 0b0000_0001 != 0,
            point: self.to_envelope(),
            sustain_enabled: self.flags & 0b0000_0100 != 0,
            sustain_start_point: self.sustain_loop_start as usize,
            sustain_end_point: self.sustain_loop_end as usize,
            loop_enabled: self.flags & 0b0000_0010 != 0,
            loop_start_point: self.loop_start as usize,
            loop_end_point: self.loop_end as usize,
        }
    }
}

impl ItInstrumentPre2 {
    /// Whether the header starts with "IMPI".
    pub fn is_it_instrument(&self) -> (r: bool)
        ensures
            r == (self.instr.id@ == "IMPI"@),
    {
        self.instr.is_it_instrument()
    }
}

impl ItInstrumentPost2 {
    /// Whether the header starts with "IMPI".
    pub fn is_it_instrument(&self) -> (r: bool)
        ensures
            r == (self.instr.id@ == "IMPI"@),
    {
        self.instr.is_it_instrument()
    }
}

impl ItInstrument {
    /// The text with which the header starts.
    pub open spec fn spec_id(&self) -> Seq<char> {
        match self {
            ItInstrument::Pre2(i) => i.instr.id@,
            ItInstrument::Post2(i) => i.instr.id@,
        }
    }

    /// Whether the header starts with "IMPI".
    pub fn is_it_instrument(&self) -> (r: bool)
        ensures
            r == (self.spec_id() == "IMPI"@),
    {
        match self {
            ItInstrument::Pre2(i) => i.is_it_instrument(),
            ItInstrument::Post2(i) => i.is_it_instrument(),
        }
    }
}

/// The new note action that the number of a header stands for: 1 continue,
/// 2 note off, 3 fade out, and cut for any other.
pub open spec fn spec_new_note_action(nna: u8) -> NewNoteAction {
    if nna == 1 {
        NewNoteAction::Continue
    } else if nna == 2 {
        NewNoteAction::NoteOff
    } else if nna == 3 {
        NewNoteAction::NoteFadeOut
    } else {
        NewNoteAction::NoteCut
    }
}

/// The duplicate check that the numbers of a header stand for. The action
/// is 1 note off, 2 fade out, else cut; the type is 1 by note, 2 by sample,
/// 3 by instrument, else off.
pub open spec fn spec_duplicate_check(nna: u8, check_type: u8, action: u8) -> DuplicateCheckType {
    let n = spec_new_note_action(nna);
    let a = if action == 1 {
        DuplicateCheckAction::NoteOff(n)
    } else if action == 2 {
        DuplicateCheckAction::NoteFadeOut(n)
    } else {
        DuplicateCheckAction::NoteCut(n)
    };
    if check_type == 1 {
        DuplicateCheckType::Note(a)
    } else if check_type == 2 {
        DuplicateCheckType::Sample(a)
    } else if check_type == 3 {
        DuplicateCheckType::Instrument(a)
    } else {
        DuplicateCheckType::Off(n)
    }
}

/// The sample of each of 120 pitches after the first `n` entries of a
/// keyboard table were read: an entry with a note below 120 and a sample
/// other than 0 gives its note the sample, counted from 0; a later entry for
/// a note takes the place of an earlier one.
pub open spec fn spec_sample_for_pitch(table: Seq<(u8, u8)>, n: int) -> Seq<Option<usize>>
    decreases n,
{
    if n <= 0 {
        Seq::new(120, |i: int| None)
    } else {
        let before = spec_sample_for_pitch(table, n - 1);
        let (note, sample) = table[n - 1];
        if note < 120 && sample != 0 {
            before.update(note as int, Some((sample - 1) as usize))
        } else {
            before
        }
    }
}

/// The pitch around which the panning of an instrument turns: the pitch of
/// the byte, or C-4 where the byte stands for no pitch.
pub open spec fn spec_pitch_pan_center(value: u8) -> Pitch {
    if Pitch::is_pitch_value(value) {
        Pitch::spec_from_value(value)
    } else {
        Pitch::C4
    }
}

/// The new note action that the number of a header stands for.
pub fn new_note_action(nna: u8) -> (r: NewNoteAction)
    ensures
        r == spec_new_note_action(nna),
{
    match nna {
        1 => NewNoteAction::Continue,
        2 => NewNoteAction::NoteOff,
        3 => NewNoteAction::NoteFadeOut,
        _ => NewNoteAction::NoteCut,
    }
}

/// The sample of each of 120 pitches, by a keyboard table.
pub fn sample_for_pitch(table: &[(u8, u8); 120]) -> (r: Vec<Option<usize>>)
    ensures
        r@ == spec_sample_for_pitch(table@, 120),
        r@.len() == 120,
{
    let mut out: Vec<Option<usize>> = Vec::new();
    let mut i: usize = 0;
    while i < 120
        invariant
            0 <= i <= 120,
            out@.len() == i,
            forall|k: int| 0 <= k < i ==> (#[trigger] out@[k]).is_none(),
        decreases 120 - i,
    {
        out.push(None);
        i += 1;
    }
    assert(out@ =~= spec_sample_for_pitch(table@, 0));
    let mut n: usize = 0;
    while n < 120
        invariant
            0 <= n <= 120,
            out@.len() == 120,
            out@ == spec_sample_for_pitch(table@, n as int),
        decreases 120 - n,
    {
        let (note, sample) = table[n];
        if note < 120 && sample != 0 {
            out.set(note as usize, Some((sample - 1) as usize));
        }
        n += 1;
    }
    out
}

/// The pitch around which the panning of an instrument turns.
pub fn pitch_pan_center(value: u8) -> (r: Pitch)
    ensures
        r == spec_pitch_pan_center(value),
{
    match Pitch::try_from(value) {
        Ok(p) => p,
        Err(_) => Pitch::C4,
    }
}

impl ItInstrumentHeaderPre2 {
    /// The duplicate check of the instrument: none, with the new note
    /// action of the header.
    pub fn duplicate_check(&self) -> (r: DuplicateCheckType)
        ensures
            r == DuplicateCheckType::Off(spec_new_note_action(self.nna)),
    {
        DuplicateCheckType::Off(new_note_action(self.nna))
    }

    /// Whether the instrument is muted: its duplicate note check is 0.
    pub fn muted(&self) -> (r: bool)
        ensures
            r == (self.dnc == 0),
    {
        self.dnc == 0
    }
}

impl ItInstrumentHeaderPost2 {
    /// The duplicate check of the instrument.
    pub fn duplicate_check(&self) -> (r: DuplicateCheckType)
        ensures
            r == spec_duplicate_check(
                self.nna,
                self.duplicate_check_type,
                self.duplicate_check_action,
            ),
    {
        let nna = new_note_action(self.nna);
        let dca = match self.duplicate_check_action {
            1 => DuplicateCheckAction::NoteOff(nna),
            2 => DuplicateCheckAction::NoteFadeOut(nna),
            _ => DuplicateCheckAction::NoteCut(nna),
        };
        match self.duplicate_check_type {
            1 => DuplicateCheckType::Note(dca),
            2 => DuplicateCheckType::Sample(dca),
            3 => DuplicateCheckType::Instrument(dca),
            _ => DuplicateCheckType::Off(nna),
        }
    }
}

impl ItInstrumentPre2 {
    /// The volume envelope of the instrument: the points of its nodes, and
    /// the switches and ranges of its header.
    pub fn volume_envelope_struct(&self) -> (r: Envelope)
        ensures
            r.enabled == has_bit(self.instr.flags, 0b0000_0001),
            r.point@ == spec_sort_points(self.volume_envelope.spec_points()),
            r.sustain_enabled == has_bit(self.instr.flags, 0b0000_0100),
            r.sustain_start_point == self.instr.sustain_loop_start,
            r.sustain_end_point == self.instr.sustain_loop_end,
            r.loop_enabled == has_bit(self.instr.flags, 0b0000_0010),
            r.loop_start_point == self.instr.loop_start,
            r.loop_end_point == self.instr.loop_end,
    {
        Envelope {
            enabled: self.instr.flags & 0b0000_0001 != 0,
            point: self.volume_envelope.to_envelope(),
            sustain_enabled: self.instr.flags & 0b0000_0100 != 0,
            sustain_start_point: self.instr.sustain_loop_start as usize,
            sustain_end_point: self.instr.sustain_loop_end as usize,
            loop_enabled: self.instr.flags & 0b0000_0010 != 0,
            loop_start_point: self.instr.loop_start as usize,
            loop_end_point: self.instr.loop_end as usize,
        }
    }
}

} // verus!
