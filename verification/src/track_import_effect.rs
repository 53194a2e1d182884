use crate::amount::Amount;
use crate::effect::{
    lemma_position_of_kind, position_of, position_of_kind, NoteRetrigOperator, TrackEffect,
};
use crate::instr_default::NewNoteAction;
use crate::period_helper::FrequencyType;
use crate::waveform::Waveform;
use vstd::prelude::*;

verus! {

/// An effect as a file format gives it, before effect memory is resolved.
///
/// A zero in a field may stand for "the value used last" in the format the
/// effect came from.
#[derive(Clone, Copy, Debug, PartialEq, Eq, Structural)]
pub enum TrackImportEffect {
    /// The two halftones of an arpeggio.
    Arpeggio(usize, usize),
    /// Panning position of the channel, 0 leftmost and 1 rightmost.
    ChannelPanning(Amount),
    /// Slide of the panning position at tick 0 only.
    ChannelPanningSlide0(Amount),
    /// Slide of the panning position from tick 1 on.
    ChannelPanningSlideN(Amount),
    /// Volume of the channel.
    ChannelVolume(Amount),
    /// Slide of the channel volume at tick 0 only.
    ChannelVolumeSlide0(Amount),
    /// Slide of the channel volume from tick 1 on.
    ChannelVolumeSlideN(Amount),
    /// Round slides to the nearest halftone.
    Glissando(bool),
    /// Fine-tune value to use with the note.
    InstrumentFineTune(Amount),
    /// Change the new-note action of the instrument.
    InstrumentNewNoteAction(NewNoteAction),
    /// Position in the panning envelope.
    InstrumentPanningEnvelopePosition(usize),
    /// Switch the panning envelope on or off.
    InstrumentPanningEnvelope(bool),
    /// Switch the pitch envelope on or off.
    InstrumentPitchEnvelope(bool),
    /// Play the sample from this offset.
    InstrumentSampleOffset(usize),
    /// High part to add to the sample offsets that follow.
    InstrumentSampleOffsetAddHigh(usize),
    /// Switch surround on or off.
    InstrumentSurround(bool),
    /// Position in the volume envelope.
    InstrumentVolumeEnvelopePosition(usize),
    /// Switch the volume envelope on or off.
    InstrumentVolumeEnvelope(bool),
    /// Cut the note at the tick; the flag cuts past notes too.
    NoteCut(usize, bool),
    /// Delay the note by this number of ticks.
    NoteDelay(usize),
    /// Fade the note out at the tick; the flag fades past notes too.
    NoteFadeOut(usize, bool),
    /// Release the note at the tick; the flag releases past notes too.
    NoteOff(usize, bool),
    /// Retrigger the note at this interval.
    NoteRetrig(usize),
    /// Retrigger the note at the interval, with the code of a volume change.
    NoteRetrigExtended(usize, usize),
    /// Speed and depth of a panbrello.
    Panbrello(Amount, Amount),
    /// Shape of the panbrello, and whether a new instrument restarts it.
    PanbrelloWaveform(Waveform, bool),
    /// Pitch slide up.
    PortamentoUp(Amount),
    /// Pitch slide down.
    PortamentoDown(Amount),
    /// Fine pitch slide up.
    PortamentoFineUp(Amount),
    /// Fine pitch slide down.
    PortamentoFineDown(Amount),
    /// Extra fine pitch slide up.
    PortamentoExtraFineUp(Amount),
    /// Extra fine pitch slide down.
    PortamentoExtraFineDown(Amount),
    /// Slide of the pitch towards the note.
    TonePortamento(Amount),
    /// Slide towards the note, from the volume column.
    TonePortamentoFxVol(Amount),
    /// Speed and depth of a tremolo.
    Tremolo(Amount, Amount),
    /// Shape of the tremolo, and whether a new instrument restarts it.
    TremoloWaveform(Waveform, bool),
    /// Ticks with the volume on, then ticks with the volume off.
    Tremor(usize, usize),
    /// Speed and depth of a vibrato.
    Vibrato(Amount, Amount),
    /// Speed and depth of a fine vibrato.
    VibratoFine(Amount, Amount),
    /// Speed of the vibrato.
    VibratoSpeed(Amount),
    /// Depth of the vibrato.
    VibratoDepth(Amount),
    /// Depth of the vibrato, from the volume column.
    VibratoDepthFxVol(Amount),
    /// Shape of the vibrato, and whether a new instrument restarts it.
    VibratoWaveform(Waveform, bool),
    /// Set the volume at the tick.
    Volume(Amount, usize),
    /// Slide of the volume at tick 0 only.
    VolumeSlide0(Amount),
    /// Slide of the volume from tick 1 on.
    VolumeSlideN(Amount),
}

/// The volume change that a retrigger code stands for.
pub open spec fn spec_retrig_operator(code: usize) -> NoteRetrigOperator {
    if code == 1 {
        NoteRetrigOperator::Sum(Amount::spec_ratio(-1, 1))
    } else if code == 2 {
        NoteRetrigOperator::Sum(Amount::spec_ratio(-2, 1))
    } else if code == 3 {
        NoteRetrigOperator::Sum(Amount::spec_ratio(-4, 1))
    } else if code == 4 {
        NoteRetrigOperator::Sum(Amount::spec_ratio(-8, 1))
    } else if code == 5 {
        NoteRetrigOperator::Sum(Amount::spec_ratio(-16, 1))
    } else if code == 6 {
        NoteRetrigOperator::Mul(Amount::spec_ratio(2, 3))
    } else if code == 7 {
        NoteRetrigOperator::Mul(Amount::spec_ratio(1, 2))
    } else if code == 9 {
        NoteRetrigOperator::Sum(Amount::spec_ratio(1, 1))
    } else if code == 10 {
        NoteRetrigOperator::Sum(Amount::spec_ratio(2, 1))
    } else if code == 11 {
        NoteRetrigOperator::Sum(Amount::spec_ratio(4, 1))
    } else if code == 12 {
        NoteRetrigOperator::Sum(Amount::spec_ratio(8, 1))
    } else if code == 13 {
        NoteRetrigOperator::Sum(Amount::spec_ratio(16, 1))
    } else if code == 14 {
        NoteRetrigOperator::Mul(Amount::spec_ratio(3, 2))
    } else if code == 15 {
        NoteRetrigOperator::Mul(Amount::spec_ratio(2, 1))
    } else {
        NoteRetrigOperator::Unchanged
    }
}

/// The volume change that a retrigger code stands for.
pub fn retrig_operator(code: usize) -> (r: NoteRetrigOperator)
    ensures
        r == spec_retrig_operator(code),
{
    if code == 1 {
        NoteRetrigOperator::Sum(Amount::ratio(-1, 1))
    } else if code == 2 {
        NoteRetrigOperator::Sum(Amount::ratio(-2, 1))
    } else if code == 3 {
        NoteRetrigOperator::Sum(Amount::ratio(-4, 1))
    } else if code == 4 {
        NoteRetrigOperator::Sum(Amount::ratio(-8, 1))
    } else if code == 5 {
        NoteRetrigOperator::Sum(Amount::ratio(-16, 1))
    } else if code == 6 {
        NoteRetrigOperator::Mul(Amount::ratio(2, 3))
    } else if code == 7 {
        NoteRetrigOperator::Mul(Amount::ratio(1, 2))
    } else if code == 9 {
        NoteRetrigOperator::Sum(Amount::ratio(1, 1))
    } else if code == 10 {
        NoteRetrigOperator::Sum(Amount::ratio(2, 1))
    } else if code == 11 {
        NoteRetrigOperator::Sum(Amount::ratio(4, 1))
    } else if code == 12 {
        NoteRetrigOperator::Sum(Amount::ratio(8, 1))
    } else if code == 13 {
        NoteRetrigOperator::Sum(Amount::ratio(16, 1))
    } else if code == 14 {
        NoteRetrigOperator::Mul(Amount::ratio(3, 2))
    } else if code == 15 {
        NoteRetrigOperator::Mul(Amount::ratio(2, 1))
    } else {
        NoteRetrigOperator::Unchanged
    }
}

impl TrackImportEffect {
    /// The canonical effect that this effect becomes by itself. The pitch
    /// slides, the tone portamentos and the vibratos become none: they are
    /// summed over the whole cell. A high part of a sample offset becomes
    /// none either.
    pub open spec fn spec_to_track_effect(self) -> Option<TrackEffect> {
        match self {
            TrackImportEffect::Arpeggio(a, b) => Some(TrackEffect::Arpeggio { half1: a, half2: b }),
            TrackImportEffect::ChannelPanning(a) => Some(TrackEffect::ChannelPanning(a)),
            TrackImportEffect::ChannelPanningSlide0(a) => Some(TrackEffect::ChannelPanningSlide { speed: a, fine: true }),
            TrackImportEffect::ChannelPanningSlideN(a) => Some(TrackEffect::ChannelPanningSlide { speed: a, fine: false }),
            TrackImportEffect::ChannelVolume(a) => Some(TrackEffect::ChannelVolume(a)),
            TrackImportEffect::ChannelVolumeSlide0(a) => Some(TrackEffect::ChannelVolumeSlide { speed: a, fine: true }),
            TrackImportEffect::ChannelVolumeSlideN(a) => Some(TrackEffect::ChannelVolumeSlide { speed: a, fine: false }),
            TrackImportEffect::Glissando(a) => Some(TrackEffect::Glissando(a)),
            TrackImportEffect::InstrumentFineTune(a) => Some(TrackEffect::InstrumentFineTune(a)),
            TrackImportEffect::InstrumentNewNoteAction(a) => Some(TrackEffect::InstrumentNewNoteAction(a)),
            TrackImportEffect::InstrumentPanningEnvelopePosition(a) => Some(TrackEffect::InstrumentPanningEnvelopePosition(a)),
            TrackImportEffect::InstrumentPanningEnvelope(a) => Some(TrackEffect::InstrumentPanningEnvelope(a)),
            TrackImportEffect::InstrumentPitchEnvelope(a) => Some(TrackEffect::InstrumentPitchEnvelope(a)),
            TrackImportEffect::InstrumentSampleOffset(a) => Some(TrackEffect::InstrumentSampleOffset(a)),
            TrackImportEffect::InstrumentSurround(a) => Some(TrackEffect::InstrumentSurround(a)),
            TrackImportEffect::InstrumentVolumeEnvelopePosition(a) => Some(TrackEffect::InstrumentVolumeEnvelopePosition(a)),
            TrackImportEffect::InstrumentVolumeEnvelope(a) => Some(TrackEffect::InstrumentVolumeEnvelope(a)),
            TrackImportEffect::NoteCut(a, b) => Some(TrackEffect::NoteCut { tick: a, past: b }),
            TrackImportEffect::NoteDelay(a) => Some(TrackEffect::NoteDelay(a)),
            TrackImportEffect::NoteFadeOut(a, b) => Some(TrackEffect::NoteFadeOut { tick: a, past: b }),
            TrackImportEffect::NoteOff(a, b) => Some(TrackEffect::NoteOff { tick: a, past: b }),
            TrackImportEffect::NoteRetrig(a) => Some(TrackEffect::NoteRetrig { speed: a, volume_modifier: NoteRetrigOperator::Unchanged }),
            TrackImportEffect::NoteRetrigExtended(a, b) => Some(
                TrackEffect::NoteRetrig { speed: a, volume_modifier: spec_retrig_operator(b) },
            ),
            TrackImportEffect::Panbrello(a, b) => Some(TrackEffect::Panbrello { speed: a, depth: b }),
            TrackImportEffect::PanbrelloWaveform(a, b) => Some(TrackEffect::PanbrelloWaveform { waveform: a, retrig: b }),
            TrackImportEffect::Tremolo(a, b) => Some(TrackEffect::Tremolo { speed: a, depth: b }),
            TrackImportEffect::TremoloWaveform(a, b) => Some(TrackEffect::TremoloWaveform { waveform: a, retrig: b }),
            TrackImportEffect::Tremor(a, b) => Some(TrackEffect::Tremor { on_time: a, off_time: b }),
            TrackImportEffect::VibratoSpeed(a) => Some(TrackEffect::VibratoSpeed(a)),
            TrackImportEffect::VibratoWaveform(a, b) => Some(TrackEffect::VibratoWaveform { waveform: a, retrig: b }),
            TrackImportEffect::Volume(a, b) => Some(TrackEffect::Volume { value: a, tick: b }),
            TrackImportEffect::VolumeSlide0(a) => Some(TrackEffect::VolumeSlide { speed: a, fine: true }),
            TrackImportEffect::VolumeSlideN(a) => Some(TrackEffect::VolumeSlide { speed: a, fine: false }),
            _ => None,
        }
    }

    /// What the effect adds to the pitch slide of its cell.
    pub open spec fn portamento_part(self) -> Amount {
        match self {
            TrackImportEffect::PortamentoUp(a) => a,
            TrackImportEffect::PortamentoDown(a) => a,
            TrackImportEffect::PortamentoFineUp(a) => a,
            TrackImportEffect::PortamentoFineDown(a) => a,
            TrackImportEffect::PortamentoExtraFineUp(a) => a,
            TrackImportEffect::PortamentoExtraFineDown(a) => a,
            _ => Amount { raw: 0 },
        }
    }

    /// What the effect adds to the tone portamento of its cell.
    pub open spec fn tone_portamento_part(self) -> Amount {
        match self {
            TrackImportEffect::TonePortamento(a) => a,
            TrackImportEffect::TonePortamentoFxVol(a) => a,
            _ => Amount { raw: 0 },
        }
    }

    /// What the effect adds to the vibrato depth of its cell.
    pub open spec fn vibrato_depth_part(self) -> Amount {
        match self {
            TrackImportEffect::VibratoDepth(a) => a,
            TrackImportEffect::VibratoDepthFxVol(a) => a,
            _ => Amount { raw: 0 },
        }
    }

    /// What the effect adds to the speed and to the depth of the vibrato of
    /// its cell.
    pub open spec fn vibrato_part(self) -> (Amount, Amount) {
        match self {
            TrackImportEffect::Vibrato(s, d) => (s, d),
            TrackImportEffect::VibratoFine(s, d) => (s, d),
            _ => (Amount { raw: 0 }, Amount { raw: 0 }),
        }
    }

    fn to_track_effect(&self) -> (r: Option<TrackEffect>)
        ensures
            r == self.spec_to_track_effect(),
    {
        match self {
            TrackImportEffect::Arpeggio(a, b) => Some(TrackEffect::Arpeggio { half1: *a, half2: *b }),
            TrackImportEffect::ChannelPanning(a) => Some(TrackEffect::ChannelPanning(*a)),
            TrackImportEffect::ChannelPanningSlide0(a) => Some(TrackEffect::ChannelPanningSlide { speed: *a, fine: true }),
            TrackImportEffect::ChannelPanningSlideN(a) => Some(TrackEffect::ChannelPanningSlide { speed: *a, fine: false }),
            TrackImportEffect::ChannelVolume(a) => Some(TrackEffect::ChannelVolume(*a)),
            TrackImportEffect::ChannelVolumeSlide0(a) => Some(TrackEffect::ChannelVolumeSlide { speed: *a, fine: true }),
            TrackImportEffect::ChannelVolumeSlideN(a) => Some(TrackEffect::ChannelVolumeSlide { speed: *a, fine: false }),
            TrackImportEffect::Glissando(a) => Some(TrackEffect::Glissando(*a)),
            TrackImportEffect::InstrumentFineTune(a) => Some(TrackEffect::InstrumentFineTune(*a)),
            TrackImportEffect::InstrumentNewNoteAction(a) => Some(TrackEffect::InstrumentNewNoteAction(*a)),
            TrackImportEffect::InstrumentPanningEnvelopePosition(a) => Some(TrackEffect::InstrumentPanningEnvelopePosition(*a)),
            TrackImportEffect::InstrumentPanningEnvelope(a) => Some(TrackEffect::InstrumentPanningEnvelope(*a)),
            TrackImportEffect::InstrumentPitchEnvelope(a) => Some(TrackEffect::InstrumentPitchEnvelope(*a)),
            TrackImportEffect::InstrumentSampleOffset(a) => Some(TrackEffect::InstrumentSampleOffset(*a)),
            TrackImportEffect::InstrumentSurround(a) => Some(TrackEffect::InstrumentSurround(*a)),
            TrackImportEffect::InstrumentVolumeEnvelopePosition(a) => Some(TrackEffect::InstrumentVolumeEnvelopePosition(*a)),
            TrackImportEffect::InstrumentVolumeEnvelope(a) => Some(TrackEffect::InstrumentVolumeEnvelope(*a)),
            TrackImportEffect::NoteCut(a, b) => Some(TrackEffect::NoteCut { tick: *a, past: *b }),
            TrackImportEffect::NoteDelay(a) => Some(TrackEffect::NoteDelay(*a)),
            TrackImportEffect::NoteFadeOut(a, b) => Some(TrackEffect::NoteFadeOut { tick: *a, past: *b }),
            TrackImportEffect::NoteOff(a, b) => Some(TrackEffect::NoteOff { tick: *a, past: *b }),
            TrackImportEffect::NoteRetrig(a) => Some(TrackEffect::NoteRetrig { speed: *a, volume_modifier: NoteRetrigOperator::Unchanged }),
            TrackImportEffect::NoteRetrigExtended(a, b) => Some(
                TrackEffect::NoteRetrig { speed: *a, volume_modifier: retrig_operator(*b) },
            ),
            TrackImportEffect::Panbrello(a, b) => Some(TrackEffect::Panbrello { speed: *a, depth: *b }),
            TrackImportEffect::PanbrelloWaveform(a, b) => Some(TrackEffect::PanbrelloWaveform { waveform: *a, retrig: *b }),
            TrackImportEffect::Tremolo(a, b) => Some(TrackEffect::Tremolo { speed: *a, depth: *b }),
            TrackImportEffect::TremoloWaveform(a, b) => Some(TrackEffect::TremoloWaveform { waveform: *a, retrig: *b }),
            TrackImportEffect::Tremor(a, b) => Some(TrackEffect::Tremor { on_time: *a, off_time: *b }),
            TrackImportEffect::VibratoSpeed(a) => Some(TrackEffect::VibratoSpeed(*a)),
            TrackImportEffect::VibratoWaveform(a, b) => Some(TrackEffect::VibratoWaveform { waveform: *a, retrig: *b }),
            TrackImportEffect::Volume(a, b) => Some(TrackEffect::Volume { value: *a, tick: *b }),
            TrackImportEffect::VolumeSlide0(a) => Some(TrackEffect::VolumeSlide { speed: *a, fine: true }),
            TrackImportEffect::VolumeSlideN(a) => Some(TrackEffect::VolumeSlide { speed: *a, fine: false }),
            _ => None,
        }
    }
}

/// Sum, from the first effect to the last, of what each adds to the pitch
/// slide of the cell.
pub open spec fn spec_sum_portamento(effects: Seq<TrackImportEffect>) -> Amount
    decreases effects.len(),
{
    if effects.len() == 0 {
        Amount { raw: 0 }
    } else {
        spec_sum_portamento(effects.drop_last()).spec_plus(effects.last().portamento_part())
    }
}

/// Sum, from the first effect to the last, of what each adds to the tone
/// portamento of the cell.
pub open spec fn spec_sum_tone_portamento(effects: Seq<TrackImportEffect>) -> Amount
    decreases effects.len(),
{
    if effects.len() == 0 {
        Amount { raw: 0 }
    } else {
        spec_sum_tone_portamento(effects.drop_last()).spec_plus(
            effects.last().tone_portamento_part(),
        )
    }
}

/// Sum, from the first effect to the last, of what each adds to the vibrato
/// depth of the cell.
pub open spec fn spec_sum_vibrato_depth(effects: Seq<TrackImportEffect>) -> Amount
    decreases effects.len(),
{
    if effects.len() == 0 {
        Amount { raw: 0 }
    } else {
        spec_sum_vibrato_depth(effects.drop_last()).spec_plus(effects.last().vibrato_depth_part())
    }
}

/// Sums, from the first effect to the last, of what each adds to the speed
/// and to the depth of the vibrato of the cell.
pub open spec fn spec_sum_vibratos(effects: Seq<TrackImportEffect>) -> (Amount, Amount)
    decreases effects.len(),
{
    if effects.len() == 0 {
        (Amount { raw: 0 }, Amount { raw: 0 })
    } else {
        let before = spec_sum_vibratos(effects.drop_last());
        let part = effects.last().vibrato_part();
        (before.0.spec_plus(part.0), before.1.spec_plus(part.1))
    }
}

/// The four effects that a cell's slides and vibratos sum up to, in the order
/// pitch slide, tone portamento, vibrato depth, vibrato. A sum of 0 gives no
/// effect, and so does a vibrato whose speed or depth sums to 0.
pub open spec fn spec_aggregates(effects: Seq<TrackImportEffect>) -> Seq<TrackEffect> {
    let p = spec_sum_portamento(effects);
    let t = spec_sum_tone_portamento(effects);
    let d = spec_sum_vibrato_depth(effects);
    let v = spec_sum_vibratos(effects);
    let s0 = Seq::<TrackEffect>::empty();
    let s1 = if p.raw == 0 {
        s0
    } else {
        s0.push(TrackEffect::Portamento(p))
    };
    let s2 = if t.raw == 0 {
        s1
    } else {
        s1.push(TrackEffect::TonePortamento(t))
    };
    let s3 = if d.raw == 0 {
        s2
    } else {
        s2.push(TrackEffect::VibratoDepth(d))
    };
    if v.0.raw == 0 || v.1.raw == 0 {
        s3
    } else {
        s3.push(TrackEffect::Vibrato { speed: v.0, depth: v.1 })
    }
}

/// The canonical effects of those effects that become one by themselves, in
/// their order.
pub open spec fn spec_map_effects(effects: Seq<TrackImportEffect>) -> Seq<TrackEffect>
    decreases effects.len(),
{
    if effects.len() == 0 {
        Seq::empty()
    } else {
        let before = spec_map_effects(effects.drop_last());
        match effects.last().spec_to_track_effect() {
            Some(e) => before.push(e),
            None => before,
        }
    }
}

/// `unique` after it has taken in `effect`: where it holds an effect of the
/// same kind, the two are merged in its place, or `effect` is dropped if the
/// kind has no merge rule; else `effect` is added at the end.
pub open spec fn spec_absorb(unique: Seq<TrackEffect>, effect: TrackEffect) -> Seq<TrackEffect> {
    let i = position_of_kind(unique, effect.kind(), 0);
    if i < unique.len() {
        match unique[i].spec_merge(effect) {
            Some(m) => unique.update(i, m),
            None => unique,
        }
    } else {
        unique.push(effect)
    }
}

/// The effects with one effect left of each kind: taken in from the first to
/// the last, each merged into the earlier one of its kind.
pub open spec fn spec_remove_duplicates_and_merge(effects: Seq<TrackEffect>) -> Seq<TrackEffect>
    decreases effects.len(),
{
    if effects.len() == 0 {
        Seq::empty()
    } else {
        spec_absorb(spec_remove_duplicates_and_merge(effects.drop_last()), effects.last())
    }
}

/// Whether no two effects are of one kind.
pub open spec fn distinct_kinds(effects: Seq<TrackEffect>) -> bool {
    forall|i: int, j: int|
        0 <= i < j < effects.len() ==> (#[trigger] effects[i]).kind() != (
        #[trigger] effects[j]).kind()
}

/// The canonical effects of a cell: its aggregates, then its other effects,
/// with duplicates of a kind merged.
pub open spec fn spec_to_track_effects(effects: Seq<TrackImportEffect>) -> Seq<TrackEffect> {
    spec_remove_duplicates_and_merge(spec_aggregates(effects) + spec_map_effects(effects))
}

/// Taking in one more effect keeps the kinds distinct, adds at most one
/// effect, and leaves an effect of the new effect's kind in the list.
pub proof fn lemma_absorb_distinct(unique: Seq<TrackEffect>, effect: TrackEffect)
    requires
        distinct_kinds(unique),
    ensures
        distinct_kinds(spec_absorb(unique, effect)),
        unique.len() <= spec_absorb(unique, effect).len() <= unique.len() + 1,
        exists|i: int|
            0 <= i < spec_absorb(unique, effect).len() && (#[trigger] spec_absorb(
                unique,
                effect,
            )[i]).kind() == effect.kind(),
{
    let i = position_of_kind(unique, effect.kind(), 0);
    lemma_position_of_kind(unique, effect.kind(), 0);
    let r = spec_absorb(unique, effect);
    if i < unique.len() {
        TrackEffect::lemma_merge_kind(unique[i], effect);
        assert(r[i].kind() == effect.kind());
        assert forall|a: int, b: int| 0 <= a < b < r.len() implies (#[trigger] r[a]).kind() != (
        #[trigger] r[b]).kind() by {
            assert(r[a].kind() == unique[a].kind());
            assert(r[b].kind() == unique[b].kind());
        }
    } else {
        assert(r[unique.len() as int].kind() == effect.kind());
        assert forall|a: int, b: int| 0 <= a < b < r.len() implies (#[trigger] r[a]).kind() != (
        #[trigger] r[b]).kind() by {
            if b < unique.len() {
                assert(r[a] == unique[a]);
                assert(r[b] == unique[b]);
            } else {
                assert(r[a] == unique[a]);
            }
        }
    }
}

/// After duplicates are merged, no two effects are of one kind, and no more
/// effects are left than there were.
pub proof fn lemma_remove_duplicates_distinct(effects: Seq<TrackEffect>)
    ensures
        distinct_kinds(spec_remove_duplicates_and_merge(effects)),
        spec_remove_duplicates_and_merge(effects).len() <= effects.len(),
    decreases effects.len(),
{
    if effects.len() > 0 {
        lemma_remove_duplicates_distinct(effects.drop_last());
        lemma_absorb_distinct(
            spec_remove_duplicates_and_merge(effects.drop_last()),
            effects.last(),
        );
    }
}

impl TrackImportEffect {
    fn sum_vibrato_depth(effects: &Vec<TrackImportEffect>) -> (r: Option<TrackEffect>)
        ensures
            r == (if spec_sum_vibrato_depth(effects@).raw == 0 {
                None
            } else {
                Some(TrackEffect::VibratoDepth(spec_sum_vibrato_depth(effects@)))
            }),
    {
        let mut s = Amount::zero();
        let mut i: usize = 0;
        while i < effects.len()
            invariant
                0 <= i <= effects.len(),
                s == spec_sum_vibrato_depth(effects@.take(i as int)),
            decreases effects.len() - i,
        {
            let part = match effects[i] {
                TrackImportEffect::VibratoDepth(a) => a,
                TrackImportEffect::VibratoDepthFxVol(a) => a,
                _ => Amount::zero(),
            };
            proof {
                assert(effects@.take(i + 1).drop_last() == effects@.take(i as int));
            }
            s = s.plus(&part);
            i += 1;
        }
        proof {
            assert(effects@.take(effects.len() as int) == effects@);
        }
        if s.is_zero() {
            None
        } else {
            Some(TrackEffect::VibratoDepth(s))
        }
    }

    fn sum_vibratos(effects: &Vec<TrackImportEffect>) -> (r: Option<TrackEffect>)
        ensures
            r == (if spec_sum_vibratos(effects@).0.raw == 0 || spec_sum_vibratos(effects@).1.raw
                == 0 {
                None
            } else {
                Some(
                    TrackEffect::Vibrato {
                        speed: spec_sum_vibratos(effects@).0,
                        depth: spec_sum_vibratos(effects@).1,
                    },
                )
            }),
    {
        let mut s0 = Amount::zero();
        let mut s1 = Amount::zero();
        let mut i: usize = 0;
        while i < effects.len()
            invariant
                0 <= i <= effects.len(),
                (s0, s1) == spec_sum_vibratos(effects@.take(i as int)),
            decreases effects.len() - i,
        {
            let (a, b) = match effects[i] {
                TrackImportEffect::Vibrato(speed, depth) => (speed, depth),
                TrackImportEffect::VibratoFine(speed, depth) => (speed, depth),
                _ => (Amount::zero(), Amount::zero()),
            };
            proof {
                assert(effects@.take(i + 1).drop_last() == effects@.take(i as int));
            }
            s0 = s0.plus(&a);
            s1 = s1.plus(&b);
            i += 1;
        }
        proof {
            assert(effects@.take(effects.len() as int) == effects@);
        }
        if s0.is_zero() || s1.is_zero() {
            None
        } else {
            Some(TrackEffect::Vibrato { speed: s0, depth: s1 })
        }
    }

    fn sum_tone_portamento(effects: &Vec<TrackImportEffect>) -> (r: Option<TrackEffect>)
        ensures
            r == (if spec_sum_tone_portamento(effects@).raw == 0 {
                None
            } else {
                Some(TrackEffect::TonePortamento(spec_sum_tone_portamento(effects@)))
            }),
    {
        let mut s = Amount::zero();
        let mut i: usize = 0;
        while i < effects.len()
            invariant
                0 <= i <= effects.len(),
                s == spec_sum_tone_portamento(effects@.take(i as int)),
            decreases effects.len() - i,
        {
            let part = match effects[i] {
                TrackImportEffect::TonePortamento(a) => a,
                TrackImportEffect::TonePortamentoFxVol(a) => a,
                _ => Amount::zero(),
            };
            proof {
                assert(effects@.take(i + 1).drop_last() == effects@.take(i as int));
            }
            s = s.plus(&part);
            i += 1;
        }
        proof {
            assert(effects@.take(effects.len() as int) == effects@);
        }
        if s.is_zero() {
            None
        } else {
            Some(TrackEffect::TonePortamento(s))
        }
    }

    fn sum_portamento_speeds(effects: &Vec<TrackImportEffect>) -> (r: Option<TrackEffect>)
        ensures
            r == (if spec_sum_portamento(effects@).raw == 0 {
                None
            } else {
                Some(TrackEffect::Portamento(spec_sum_portamento(effects@)))
            }),
    {
        let mut s = Amount::zero();
        let mut i: usize = 0;
        while i < effects.len()
            invariant
                0 <= i <= effects.len(),
                s == spec_sum_portamento(effects@.take(i as int)),
            decreases effects.len() - i,
        {
            let part = match effects[i] {
                TrackImportEffect::PortamentoUp(a) => a,
                TrackImportEffect::PortamentoDown(a) => a,
                TrackImportEffect::PortamentoFineUp(a) => a,
                TrackImportEffect::PortamentoFineDown(a) => a,
                TrackImportEffect::PortamentoExtraFineUp(a) => a,
                TrackImportEffect::PortamentoExtraFineDown(a) => a,
                _ => Amount::zero(),
            };
            proof {
                assert(effects@.take(i + 1).drop_last() == effects@.take(i as int));
            }
            s = s.plus(&part);
            i += 1;
        }
        proof {
            assert(effects@.take(effects.len() as int) == effects@);
        }
        if s.is_zero() {
            None
        } else {
            Some(TrackEffect::Portamento(s))
        }
    }

    fn remove_duplicates_and_merge(effects: Vec<TrackEffect>) -> (r: Vec<TrackEffect>)
        ensures
            r@ == spec_remove_duplicates_and_merge(effects@),
            distinct_kinds(r@),
            r@.len() <= effects@.len(),
    {
        let mut unique_effects: Vec<TrackEffect> = Vec::new();
        let mut i: usize = 0;
        while i < effects.len()
            invariant
                0 <= i <= effects.len(),
                unique_effects@ == spec_remove_duplicates_and_merge(effects@.take(i as int)),
            decreases effects.len() - i,
        {
            let effect = effects[i];
            let j = position_of(&unique_effects, &effect);
            proof {
                assert(effects@.take(i + 1).drop_last() == effects@.take(i as int));
            }
            if j < unique_effects.len() {
                match unique_effects[j].merge(&effect) {
                    Some(merged_effect) => {
                        unique_effects.set(j, merged_effect);
                    },
                    None => {},
                }
            } else {
                unique_effects.push(effect);
            }
            i += 1;
        }
        proof {
            assert(effects@.take(effects.len() as int) == effects@);
            lemma_remove_duplicates_distinct(effects@);
        }
        unique_effects
    }

    /// The canonical effects of a cell whose effect memory is resolved.
    pub fn to_track_effects(effects: &Vec<TrackImportEffect>) -> (r: Vec<TrackEffect>)
        ensures
            r@ == spec_to_track_effects(effects@),
            distinct_kinds(r@),
    {
        let mut vte: Vec<TrackEffect> = Vec::new();
        match Self::sum_portamento_speeds(effects) {
            Some(te) => vte.push(te),
            None => {},
        }
        match Self::sum_tone_portamento(effects) {
            Some(te) => vte.push(te),
            None => {},
        }
        match Self::sum_vibrato_depth(effects) {
            Some(te) => vte.push(te),
            None => {},
        }
        match Self::sum_vibratos(effects) {
            Some(te) => vte.push(te),
            None => {},
        }
        assert(vte@ == spec_aggregates(effects@));
        let mut i: usize = 0;
        while i < effects.len()
            invariant
                0 <= i <= effects.len(),
                vte@ == spec_aggregates(effects@) + spec_map_effects(effects@.take(i as int)),
            decreases effects.len() - i,
        {
            proof {
                assert(effects@.take(i + 1).drop_last() == effects@.take(i as int));
            }
            match effects[i].to_track_effect() {
                Some(te) => vte.push(te),
                None => {},
            }
            i += 1;
        }
        proof {
            assert(effects@.take(effects.len() as int) == effects@);
        }
        Self::remove_duplicates_and_merge(vte)
    }
}

/// The high nibble of a byte.
pub open spec fn hi(p: u8) -> int {
    p as int / 16
}

/// The low nibble of a byte.
pub open spec fn lo(p: u8) -> int {
    p as int % 16
}

/// What an optional vector of effects holds.
pub open spec fn effects_view(r: Option<Vec<TrackImportEffect>>) -> Option<
    Seq<TrackImportEffect>,
> {
    match r {
        Some(v) => Some(v@),
        None => None,
    }
}

/// The nibbles of a byte, as shifts and masks give them.
pub proof fn lemma_nibbles(p: u8)
    ensures
        (p >> 4) as int == hi(p),
        ((p & 0xF0) >> 4) as int == hi(p),
        (p & 0x0F) as int == lo(p),
        (p & 0xF) as int == lo(p),
        (p & 0xF0) as int == hi(p) * 16,
        0 <= hi(p) < 16,
        0 <= lo(p) < 16,
        p as int == hi(p) * 16 + lo(p),
{
    assert((p >> 4) == p / 16 && ((p & 0xF0) >> 4) == p / 16 && (p & 0x0F) == p % 16 && (p & 0xF0)
        == (p / 16) * 16) by (bit_vector);
}

/// A vector of one effect.
pub fn one_effect(e: TrackImportEffect) -> (r: Option<Vec<TrackImportEffect>>)
    ensures
        effects_view(r) == Some(seq![e]),
{
    let mut v: Vec<TrackImportEffect> = Vec::new();
    v.push(e);
    assert(v@ == seq![e]);
    Some(v)
}

/// A vector of two effects.
pub fn two_effects(a: TrackImportEffect, b: TrackImportEffect) -> (r: Option<
    Vec<TrackImportEffect>,
>)
    ensures
        effects_view(r) == Some(seq![a, b]),
{
    let mut v: Vec<TrackImportEffect> = Vec::new();
    v.push(a);
    v.push(b);
    assert(v@ == seq![a, b]);
    Some(v)
}

/// The speed of a tone portamento: four times the parameter with linear
/// frequencies, the parameter itself with Amiga frequencies.
pub open spec fn tone_portamento_speed(freq_type: FrequencyType, param: int) -> Amount {
    match freq_type {
        FrequencyType::LinearFrequencies => Amount::spec_ratio(4 * param, 1),
        FrequencyType::AmigaFrequencies => Amount::spec_ratio(param, 1),
    }
}

/// The effects of an optional list, or none.
pub open spec fn seq_or_empty<T>(s: Option<Seq<T>>) -> Seq<T> {
    match s {
        Some(v) => v,
        None => Seq::empty(),
    }
}

/// A sequence of the one value of an option, or of none.
pub open spec fn option_seq<T>(s: Option<T>) -> Seq<T> {
    match s {
        Some(v) => seq![v],
        None => Seq::empty(),
    }
}

/// The speed of a tone portamento.
pub fn tone_portamento(freq_type: FrequencyType, param: u8) -> (r: Amount)
    ensures
        r == tone_portamento_speed(freq_type, param as int),
{
    match freq_type {
        FrequencyType::LinearFrequencies => Amount::ratio(4 * (param as i32), 1),
        FrequencyType::AmigaFrequencies => Amount::ratio(param as i32, 1),
    }
}

} // verus!
