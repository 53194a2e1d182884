use crate::amount::Amount;
use crate::instr_default::NewNoteAction;
use crate::waveform::Waveform;
use vstd::prelude::*;

verus! {

/// What a retriggered note does to the volume.
#[derive(Clone, Copy, Debug, PartialEq, Eq, Structural)]
pub enum NoteRetrigOperator {
    /// The volume stays as it is.
    Unchanged,
    /// The amount is added to the volume, in sixty-fourths of the full volume.
    Sum(Amount),
    /// The volume is multiplied by the amount.
    Mul(Amount),
}

/// The sum of two counts, held at the largest `usize` where it would pass it.
pub open spec fn saturating_sum(a: usize, b: usize) -> usize {
    if a + b > usize::MAX {
        usize::MAX
    } else {
        (a + b) as usize
    }
}

/// An effect on one channel, in the form that no longer depends on the file
/// format it came from.
#[allow(inconsistent_fields)]
#[derive(Clone, Copy, Debug, PartialEq, Eq, Structural)]
pub enum TrackEffect {
    /// Pitch effect: the two halftones that alternate with the note.
    Arpeggio { half1: usize, half2: usize },
    /// Panning position of the channel, 0 leftmost and 1 rightmost.
    ChannelPanning(Amount),
    /// Slide of the panning position; `fine` slides at tick 0 only.
    ChannelPanningSlide { speed: Amount, fine: bool },
    /// Volume of the channel.
    ChannelVolume(Amount),
    /// Slide of the channel volume; `fine` slides at tick 0 only.
    ChannelVolumeSlide { speed: Amount, fine: bool },
    /// Round slides to the nearest halftone.
    Glissando(bool),
    /// Fine-tune value to use with the note.
    InstrumentFineTune(Amount),
    /// Change the new-note action of the instrument.
    InstrumentNewNoteAction(NewNoteAction),
    /// Position in the panning envelope.
    InstrumentPanningEnvelopePosition(usize),
    /// Switch the panning envelope on or off.
    InstrumentPanningEnvelope(bool),
    /// Switch the pitch envelope on or off.
    InstrumentPitchEnvelope(bool),
    /// Play the sample from this offset.
    InstrumentSampleOffset(usize),
    /// Switch surround on or off.
    InstrumentSurround(bool),
    /// Position in the volume envelope.
    InstrumentVolumeEnvelopePosition(usize),
    /// Switch the volume envelope on or off.
    InstrumentVolumeEnvelope(bool),
    /// Cut the note at `tick`; `past` cuts past notes too.
    NoteCut { tick: usize, past: bool },
    /// Delay the note by this number of ticks.
    NoteDelay(usize),
    /// Fade the note out at `tick`; `past` fades past notes too.
    NoteFadeOut { tick: usize, past: bool },
    /// Release the note at `tick`; `past` releases past notes too.
    NoteOff { tick: usize, past: bool },
    /// Retrigger the note every `speed` ticks, changing the volume each time.
    NoteRetrig { speed: usize, volume_modifier: NoteRetrigOperator },
    /// Oscillation of the panning position.
    Panbrello { speed: Amount, depth: Amount },
    /// Shape of the panbrello; `retrig` restarts it with a new instrument.
    PanbrelloWaveform { waveform: Waveform, retrig: bool },
    /// Slide of the pitch.
    Portamento(Amount),
    /// Slide of the pitch towards the note.
    TonePortamento(Amount),
    /// Oscillation of the volume.
    Tremolo { speed: Amount, depth: Amount },
    /// Shape of the tremolo; `retrig` restarts it with a new instrument.
    TremoloWaveform { waveform: Waveform, retrig: bool },
    /// Volume on for `on_time` ticks, then off for `off_time` ticks.
    Tremor { on_time: usize, off_time: usize },
    /// Oscillation of the pitch.
    Vibrato { speed: Amount, depth: Amount },
    /// Speed of the vibrato.
    VibratoSpeed(Amount),
    /// Depth of the vibrato.
    VibratoDepth(Amount),
    /// Shape of the vibrato; `retrig` restarts it with a new instrument.
    VibratoWaveform { waveform: Waveform, retrig: bool },
    /// Set the volume to `value` at `tick`.
    Volume { value: Amount, tick: usize },
    /// Slide of the volume; `fine` slides at tick 0 only.
    VolumeSlide { speed: Amount, fine: bool },
}

/// How a MIDI macro is chosen.
#[derive(Clone, Copy, Debug, PartialEq, Eq)]
pub enum MidiMacroType {
    /// A parametric macro; without an index, the one used last.
    Parametric(Option<usize>),
    /// A fixed macro.
    Fixed(usize),
}

/// An effect on the whole row: it steers the playback, not one channel.
#[derive(Clone, Copy, Debug, PartialEq, Eq)]
pub enum GlobalEffect {
    /// Set the beats per minute.
    Bpm(usize),
    /// Slide the beats per minute on every tick of the row.
    BpmSlide(isize),
    /// Run a MIDI macro.
    MidiMacro(MidiMacroType),
    /// Go to the next pattern and play from this row.
    PatternBreak(usize),
    /// Delay the row by `quantity` rows if `tempo`, else by `quantity` ticks.
    PatternDelay { quantity: usize, tempo: bool },
    /// 0 marks the start of a loop; another value loops back that many times.
    PatternLoop(usize),
    /// Go to this position of the song.
    PositionJump(usize),
    /// Set the number of ticks per row.
    Speed(usize),
    /// Set the global volume.
    Volume(Amount),
    /// Slide the global volume; `fine` slides at tick 0 only.
    VolumeSlide { speed: Amount, fine: bool },
}

impl TrackEffect {
    /// The number of the effect's kind: two effects are of one kind when they
    /// are the same variant, whatever they hold.
    pub open spec fn kind(self) -> nat {
        match self {
            TrackEffect::Arpeggio { .. } => 0,
            TrackEffect::ChannelPanning(_) => 1,
            TrackEffect::ChannelPanningSlide { .. } => 2,
            TrackEffect::ChannelVolume(_) => 3,
            TrackEffect::ChannelVolumeSlide { .. } => 4,
            TrackEffect::Glissando(_) => 5,
            TrackEffect::InstrumentFineTune(_) => 6,
            TrackEffect::InstrumentNewNoteAction(_) => 7,
            TrackEffect::InstrumentPanningEnvelopePosition(_) => 8,
            TrackEffect::InstrumentPanningEnvelope(_) => 9,
            TrackEffect::InstrumentPitchEnvelope(_) => 10,
            TrackEffect::InstrumentSampleOffset(_) => 11,
            TrackEffect::InstrumentSurround(_) => 12,
            TrackEffect::InstrumentVolumeEnvelopePosition(_) => 13,
            TrackEffect::InstrumentVolumeEnvelope(_) => 14,
            TrackEffect::NoteCut { .. } => 15,
            TrackEffect::NoteDelay(_) => 16,
            TrackEffect::NoteFadeOut { .. } => 17,
            TrackEffect::NoteOff { .. } => 18,
            TrackEffect::NoteRetrig { .. } => 19,
            TrackEffect::Panbrello { .. } => 20,
            TrackEffect::PanbrelloWaveform { .. } => 21,
            TrackEffect::Portamento(_) => 22,
            TrackEffect::TonePortamento(_) => 23,
            TrackEffect::Tremolo { .. } => 24,
            TrackEffect::TremoloWaveform { .. } => 25,
            TrackEffect::Tremor { .. } => 26,
            TrackEffect::Vibrato { .. } => 27,
            TrackEffect::VibratoSpeed(_) => 28,
            TrackEffect::VibratoDepth(_) => 29,
            TrackEffect::VibratoWaveform { .. } => 30,
            TrackEffect::Volume { .. } => 31,
            TrackEffect::VolumeSlide { .. } => 32,
        }
    }

    /// Whether two effects of this effect's kind can be merged into one.
    pub open spec fn mergeable(self) -> bool {
        match self {
            TrackEffect::InstrumentNewNoteAction(_) => false,
            TrackEffect::InstrumentPanningEnvelope(_) => false,
            TrackEffect::InstrumentPitchEnvelope(_) => false,
            TrackEffect::InstrumentSurround(_) => false,
            TrackEffect::InstrumentVolumeEnvelope(_) => false,
            _ => true,
        }
    }

    /// The merge rule: amounts and counts are added, a volume is then limited
    /// to the range 0 to 1, and flags, waveforms and operators are taken from
    /// `other`. Effects of different kinds, or of a kind without a rule, do
    /// not merge.
    pub open spec fn spec_merge(self, other: TrackEffect) -> Option<TrackEffect> {
        match (self, other) {
            (TrackEffect::Arpeggio { half1: ahalf1, half2: ahalf2 }, TrackEffect::Arpeggio { half1: bhalf1, half2: bhalf2 }) => Some(
                TrackEffect::Arpeggio { half1: saturating_sum(ahalf1, bhalf1), half2: saturating_sum(ahalf2, bhalf2) },
            ),
            (TrackEffect::ChannelPanning(a0), TrackEffect::ChannelPanning(b0)) => Some(
                TrackEffect::ChannelPanning(a0.spec_plus(b0)),
            ),
            (TrackEffect::ChannelPanningSlide { speed: aspeed, fine: afine }, TrackEffect::ChannelPanningSlide { speed: bspeed, fine: bfine }) => Some(
                TrackEffect::ChannelPanningSlide { speed: aspeed.spec_plus(bspeed), fine: bfine },
            ),
            (TrackEffect::ChannelVolume(a0), TrackEffect::ChannelVolume(b0)) => Some(
                TrackEffect::ChannelVolume(a0.spec_plus(b0).spec_clamp_unit()),
            ),
            (TrackEffect::ChannelVolumeSlide { speed: aspeed, fine: afine }, TrackEffect::ChannelVolumeSlide { speed: bspeed, fine: bfine }) => Some(
                TrackEffect::ChannelVolumeSlide { speed: aspeed.spec_plus(bspeed), fine: bfine },
            ),
            (TrackEffect::Glissando(a0), TrackEffect::Glissando(b0)) => Some(
                TrackEffect::Glissando(b0),
            ),
            (TrackEffect::InstrumentFineTune(a0), TrackEffect::InstrumentFineTune(b0)) => Some(
                TrackEffect::InstrumentFineTune(a0.spec_plus(b0)),
            ),
            (TrackEffect::InstrumentPanningEnvelopePosition(a0), TrackEffect::InstrumentPanningEnvelopePosition(b0)) => Some(
                TrackEffect::InstrumentPanningEnvelopePosition(saturating_sum(a0, b0)),
            ),
            (TrackEffect::InstrumentSampleOffset(a0), TrackEffect::InstrumentSampleOffset(b0)) => Some(
                TrackEffect::InstrumentSampleOffset(saturating_sum(a0, b0)),
            ),
            (TrackEffect::InstrumentVolumeEnvelopePosition(a0), TrackEffect::InstrumentVolumeEnvelopePosition(b0)) => Some(
                TrackEffect::InstrumentVolumeEnvelopePosition(saturating_sum(a0, b0)),
            ),
            (TrackEffect::NoteCut { tick: atick, past: apast }, TrackEffect::NoteCut { tick: btick, past: bpast }) => Some(
                TrackEffect::NoteCut { tick: saturating_sum(atick, btick), past: bpast },
            ),
            (TrackEffect::NoteDelay(a0), TrackEffect::NoteDelay(b0)) => Some(
                TrackEffect::NoteDelay(saturating_sum(a0, b0)),
            ),
            (TrackEffect::NoteFadeOut { tick: atick, past: apast }, TrackEffect::NoteFadeOut { tick: btick, past: bpast }) => Some(
                TrackEffect::NoteFadeOut { tick: saturating_sum(atick, btick), past: bpast },
            ),
            (TrackEffect::NoteOff { tick: atick, past: apast }, TrackEffect::NoteOff { tick: btick, past: bpast }) => Some(
                TrackEffect::NoteOff { tick: saturating_sum(atick, btick), past: bpast },
            ),
            (TrackEffect::NoteRetrig { speed: aspeed, volume_modifier: avolume_modifier }, TrackEffect::NoteRetrig { speed: bspeed, volume_modifier: bvolume_modifier }) => Some(
                TrackEffect::NoteRetrig { speed: saturating_sum(aspeed, bspeed), volume_modifier: bvolume_modifier },
            ),
            (TrackEffect::Panbrello { speed: aspeed, depth: adepth }, TrackEffect::Panbrello { speed: bspeed, depth: bdepth }) => Some(
                TrackEffect::Panbrello { speed: aspeed.spec_plus(bspeed), depth: adepth.spec_plus(bdepth) },
            ),
            (TrackEffect::PanbrelloWaveform { waveform: awaveform, retrig: aretrig }, TrackEffect::PanbrelloWaveform { waveform: bwaveform, retrig: bretrig }) => Some(
                TrackEffect::PanbrelloWaveform { waveform: bwaveform, retrig: bretrig },
            ),
            (TrackEffect::Portamento(a0), TrackEffect::Portamento(b0)) => Some(
                TrackEffect::Portamento(a0.spec_plus(b0)),
            ),
            (TrackEffect::TonePortamento(a0), TrackEffect::TonePortamento(b0)) => Some(
                TrackEffect::TonePortamento(a0.spec_plus(b0)),
            ),
            (TrackEffect::Tremolo { speed: aspeed, depth: adepth }, TrackEffect::Tremolo { speed: bspeed, depth: bdepth }) => Some(
                TrackEffect::Tremolo { speed: aspeed.spec_plus(bspeed), depth: adepth.spec_plus(bdepth) },
            ),
            (TrackEffect::TremoloWaveform { waveform: awaveform, retrig: aretrig }, TrackEffect::TremoloWaveform { waveform: bwaveform, retrig: bretrig }) => Some(
                TrackEffect::TremoloWaveform { waveform: bwaveform, retrig: bretrig },
            ),
            (TrackEffect::Tremor { on_time: aon_time, off_time: aoff_time }, TrackEffect::Tremor { on_time: bon_time, off_time: boff_time }) => Some(
                TrackEffect::Tremor { on_time: saturating_sum(aon_time, bon_time), off_time: saturating_sum(aoff_time, boff_time) },
            ),
            (TrackEffect::Vibrato { speed: aspeed, depth: adepth }, TrackEffect::Vibrato { speed: bspeed, depth: bdepth }) => Some(
                TrackEffect::Vibrato { speed: aspeed.spec_plus(bspeed), depth: adepth.spec_plus(bdepth) },
            ),
            (TrackEffect::VibratoSpeed(a0), TrackEffect::VibratoSpeed(b0)) => Some(
                TrackEffect::VibratoSpeed(a0.spec_plus(b0)),
            ),
            (TrackEffect::VibratoDepth(a0), TrackEffect::VibratoDepth(b0)) => Some(
                TrackEffect::VibratoDepth(a0.spec_plus(b0)),
            ),
            (TrackEffect::VibratoWaveform { waveform: awaveform, retrig: aretrig }, TrackEffect::VibratoWaveform { waveform: bwaveform, retrig: bretrig }) => Some(
                TrackEffect::VibratoWaveform { waveform: bwaveform, retrig: bretrig },
            ),
            (TrackEffect::Volume { value: avalue, tick: atick }, TrackEffect::Volume { value: bvalue, tick: btick }) => Some(
                TrackEffect::Volume { value: avalue.spec_plus(bvalue).spec_clamp_unit(), tick: saturating_sum(atick, btick) },
            ),
            (TrackEffect::VolumeSlide { speed: aspeed, fine: afine }, TrackEffect::VolumeSlide { speed: bspeed, fine: bfine }) => Some(
                TrackEffect::VolumeSlide { speed: aspeed.spec_plus(bspeed), fine: bfine },
            ),
            _ => None,
        }
    }

    /// Merging is defined exactly for two effects of one mergeable kind, and
    /// the merged effect is of that kind.
    pub proof fn lemma_merge_kind(a: TrackEffect, b: TrackEffect)
        ensures
            a.spec_merge(b).is_some() <==> (a.kind() == b.kind() && a.mergeable()),
            a.spec_merge(b).is_some() ==> a.spec_merge(b).unwrap().kind() == a.kind(),
    {
    }

    /// Whether the two effects are of one kind.
    pub fn same_kind(&self, other: &TrackEffect) -> (r: bool)
        ensures
            r == (self.kind() == other.kind()),
    {
        match (self, other) {
            (TrackEffect::Arpeggio { .. }, TrackEffect::Arpeggio { .. }) => true,
            (TrackEffect::ChannelPanning(_), TrackEffect::ChannelPanning(_)) => true,
            (TrackEffect::ChannelPanningSlide { .. }, TrackEffect::ChannelPanningSlide { .. }) => true,
            (TrackEffect::ChannelVolume(_), TrackEffect::ChannelVolume(_)) => true,
            (TrackEffect::ChannelVolumeSlide { .. }, TrackEffect::ChannelVolumeSlide { .. }) => true,
            (TrackEffect::Glissando(_), TrackEffect::Glissando(_)) => true,
            (TrackEffect::InstrumentFineTune(_), TrackEffect::InstrumentFineTune(_)) => true,
            (TrackEffect::InstrumentNewNoteAction(_), TrackEffect::InstrumentNewNoteAction(_)) => true,
            (TrackEffect::InstrumentPanningEnvelopePosition(_), TrackEffect::InstrumentPanningEnvelopePosition(_)) => true,
            (TrackEffect::InstrumentPanningEnvelope(_), TrackEffect::InstrumentPanningEnvelope(_)) => true,
            (TrackEffect::InstrumentPitchEnvelope(_), TrackEffect::InstrumentPitchEnvelope(_)) => true,
            (TrackEffect::InstrumentSampleOffset(_), TrackEffect::InstrumentSampleOffset(_)) => true,
            (TrackEffect::InstrumentSurround(_), TrackEffect::InstrumentSurround(_)) => true,
            (TrackEffect::InstrumentVolumeEnvelopePosition(_), TrackEffect::InstrumentVolumeEnvelopePosition(_)) => true,
            (TrackEffect::InstrumentVolumeEnvelope(_), TrackEffect::InstrumentVolumeEnvelope(_)) => true,
            (TrackEffect::NoteCut { .. }, TrackEffect::NoteCut { .. }) => true,
            (TrackEffect::NoteDelay(_), TrackEffect::NoteDelay(_)) => true,
            (TrackEffect::NoteFadeOut { .. }, TrackEffect::NoteFadeOut { .. }) => true,
            (TrackEffect::NoteOff { .. }, TrackEffect::NoteOff { .. }) => true,
            (TrackEffect::NoteRetrig { .. }, TrackEffect::NoteRetrig { .. }) => true,
            (TrackEffect::Panbrello { .. }, TrackEffect::Panbrello { .. }) => true,
            (TrackEffect::PanbrelloWaveform { .. }, TrackEffect::PanbrelloWaveform { .. }) => true,
            (TrackEffect::Portamento(_), TrackEffect::Portamento(_)) => true,
            (TrackEffect::TonePortamento(_), TrackEffect::TonePortamento(_)) => true,
            (TrackEffect::Tremolo { .. }, TrackEffect::Tremolo { .. }) => true,
            (TrackEffect::TremoloWaveform { .. }, TrackEffect::TremoloWaveform { .. }) => true,
            (TrackEffect::Tremor { .. }, TrackEffect::Tremor { .. }) => true,
            (TrackEffect::Vibrato { .. }, TrackEffect::Vibrato { .. }) => true,
            (TrackEffect::VibratoSpeed(_), TrackEffect::VibratoSpeed(_)) => true,
            (TrackEffect::VibratoDepth(_), TrackEffect::VibratoDepth(_)) => true,
            (TrackEffect::VibratoWaveform { .. }, TrackEffect::VibratoWaveform { .. }) => true,
            (TrackEffect::Volume { .. }, TrackEffect::Volume { .. }) => true,
            (TrackEffect::VolumeSlide { .. }, TrackEffect::VolumeSlide { .. }) => true,
            _ => false,
        }
    }

    /// Combines this effect with a later one of the same kind.
    pub fn merge(&self, other: &TrackEffect) -> (r: Option<TrackEffect>)
        ensures
            r == self.spec_merge(*other),
    {
        match (self, other) {
            (TrackEffect::Arpeggio { half1: ahalf1, half2: ahalf2 }, TrackEffect::Arpeggio { half1: bhalf1, half2: bhalf2 }) => Some(
                TrackEffect::Arpeggio { half1: ahalf1.saturating_add(*bhalf1), half2: ahalf2.saturating_add(*bhalf2) },
            ),
            (TrackEffect::ChannelPanning(a0), TrackEffect::ChannelPanning(b0)) => Some(
                TrackEffect::ChannelPanning(a0.plus(b0)),
            ),
            (TrackEffect::ChannelPanningSlide { speed: aspeed, fine: _ }, TrackEffect::ChannelPanningSlide { speed: bspeed, fine: bfine }) => Some(
                TrackEffect::ChannelPanningSlide { speed: aspeed.plus(bspeed), fine: *bfine },
            ),
            (TrackEffect::ChannelVolume(a0), TrackEffect::ChannelVolume(b0)) => Some(
                TrackEffect::ChannelVolume(a0.plus(b0).clamp_unit()),
            ),
            (TrackEffect::ChannelVolumeSlide { speed: aspeed, fine: _ }, TrackEffect::ChannelVolumeSlide { speed: bspeed, fine: bfine }) => Some(
                TrackEffect::ChannelVolumeSlide { speed: aspeed.plus(bspeed), fine: *bfine },
            ),
            (TrackEffect::Glissando(_), TrackEffect::Glissando(b0)) => Some(
                TrackEffect::Glissando(*b0),
            ),
            (TrackEffect::InstrumentFineTune(a0), TrackEffect::InstrumentFineTune(b0)) => Some(
                TrackEffect::InstrumentFineTune(a0.plus(b0)),
            ),
            (TrackEffect::InstrumentPanningEnvelopePosition(a0), TrackEffect::InstrumentPanningEnvelopePosition(b0)) => Some(
                TrackEffect::InstrumentPanningEnvelopePosition(a0.saturating_add(*b0)),
            ),
            (TrackEffect::InstrumentSampleOffset(a0), TrackEffect::InstrumentSampleOffset(b0)) => Some(
                TrackEffect::InstrumentSampleOffset(a0.saturating_add(*b0)),
            ),
            (TrackEffect::InstrumentVolumeEnvelopePosition(a0), TrackEffect::InstrumentVolumeEnvelopePosition(b0)) => Some(
                TrackEffect::InstrumentVolumeEnvelopePosition(a0.saturating_add(*b0)),
            ),
            (TrackEffect::NoteCut { tick: atick, past: _ }, TrackEffect::NoteCut { tick: btick, past: bpast }) => Some(
                TrackEffect::NoteCut { tick: atick.saturating_add(*btick), past: *bpast },
            ),
            (TrackEffect::NoteDelay(a0), TrackEffect::NoteDelay(b0)) => Some(
                TrackEffect::NoteDelay(a0.saturating_add(*b0)),
            ),
            (TrackEffect::NoteFadeOut { tick: atick, past: _ }, TrackEffect::NoteFadeOut { tick: btick, past: bpast }) => Some(
                TrackEffect::NoteFadeOut { tick: atick.saturating_add(*btick), past: *bpast },
            ),
            (TrackEffect::NoteOff { tick: atick, past: _ }, TrackEffect::NoteOff { tick: btick, past: bpast }) => Some(
                TrackEffect::NoteOff { tick: atick.saturating_add(*btick), past: *bpast },
            ),
            (TrackEffect::NoteRetrig { speed: aspeed, volume_modifier: _ }, TrackEffect::NoteRetrig { speed: bspeed, volume_modifier: bvolume_modifier }) => Some(
                TrackEffect::NoteRetrig { speed: aspeed.saturating_add(*bspeed), volume_modifier: *bvolume_modifier },
            ),
            (TrackEffect::Panbrello { speed: aspeed, depth: adepth }, TrackEffect::Panbrello { speed: bspeed, depth: bdepth }) => Some(
                TrackEffect::Panbrello { speed: aspeed.plus(bspeed), depth: adepth.plus(bdepth) },
            ),
            (TrackEffect::PanbrelloWaveform { waveform: _, retrig: _ }, TrackEffect::PanbrelloWaveform { waveform: bwaveform, retrig: bretrig }) => Some(
                TrackEffect::PanbrelloWaveform { waveform: *bwaveform, retrig: *bretrig },
            ),
            (TrackEffect::Portamento(a0), TrackEffect::Portamento(b0)) => Some(
                TrackEffect::Portamento(a0.plus(b0)),
            ),
            (TrackEffect::TonePortamento(a0), TrackEffect::TonePortamento(b0)) => Some(
                TrackEffect::TonePortamento(a0.plus(b0)),
            ),
            (TrackEffect::Tremolo { speed: aspeed, depth: adepth }, TrackEffect::Tremolo { speed: bspeed, depth: bdepth }) => Some(
                TrackEffect::Tremolo { speed: aspeed.plus(bspeed), depth: adepth.plus(bdepth) },
            ),
            (TrackEffect::TremoloWaveform { waveform: _, retrig: _ }, TrackEffect::TremoloWaveform { waveform: bwaveform, retrig: bretrig }) => Some(
                TrackEffect::TremoloWaveform { waveform: *bwaveform, retrig: *bretrig },
            ),
            (TrackEffect::Tremor { on_time: aon_time, off_time: aoff_time }, TrackEffect::Tremor { on_time: bon_time, off_time: boff_time }) => Some(
                TrackEffect::Tremor { on_time: aon_time.saturating_add(*bon_time), off_time: aoff_time.saturating_add(*boff_time) },
            ),
            (TrackEffect::Vibrato { speed: aspeed, depth: adepth }, TrackEffect::Vibrato { speed: bspeed, depth: bdepth }) => Some(
                TrackEffect::Vibrato { speed: aspeed.plus(bspeed), depth: adepth.plus(bdepth) },
            ),
            (TrackEffect::VibratoSpeed(a0), TrackEffect::VibratoSpeed(b0)) => Some(
                TrackEffect::VibratoSpeed(a0.plus(b0)),
            ),
            (TrackEffect::VibratoDepth(a0), TrackEffect::VibratoDepth(b0)) => Some(
                TrackEffect::VibratoDepth(a0.plus(b0)),
            ),
            (TrackEffect::VibratoWaveform { waveform: _, retrig: _ }, TrackEffect::VibratoWaveform { waveform: bwaveform, retrig: bretrig }) => Some(
                TrackEffect::VibratoWaveform { waveform: *bwaveform, retrig: *bretrig },
            ),
            (TrackEffect::Volume { value: avalue, tick: atick }, TrackEffect::Volume { value: bvalue, tick: btick }) => Some(
                TrackEffect::Volume { value: avalue.plus(bvalue).clamp_unit(), tick: atick.saturating_add(*btick) },
            ),
            (TrackEffect::VolumeSlide { speed: aspeed, fine: _ }, TrackEffect::VolumeSlide { speed: bspeed, fine: bfine }) => Some(
                TrackEffect::VolumeSlide { speed: aspeed.plus(bspeed), fine: *bfine },
            ),
            _ => None,
        }
    }
}

/// The index of the first effect of kind `kind` at or after `from`, or the
/// length of `effects` where there is none.
pub open spec fn position_of_kind(effects: Seq<TrackEffect>, kind: nat, from: int) -> int
    decreases effects.len() - from,
{
    if from < 0 || from >= effects.len() {
        effects.len() as int
    } else if effects[from].kind() == kind {
        from
    } else {
        position_of_kind(effects, kind, from + 1)
    }
}

/// The position found for a kind is either the length, with no effect of the
/// kind from `from` on, or the index of the first such effect.
pub proof fn lemma_position_of_kind(effects: Seq<TrackEffect>, kind: nat, from: int)
    requires
        0 <= from <= effects.len(),
    ensures
        from <= position_of_kind(effects, kind, from) <= effects.len(),
        position_of_kind(effects, kind, from) < effects.len() ==> effects[position_of_kind(
            effects,
            kind,
            from,
        )].kind() == kind,
        forall|m: int|
            from <= m < position_of_kind(effects, kind, from) ==> (#[trigger] effects[m]).kind()
                != kind,
    decreases effects.len() - from,
{
    if from < effects.len() && effects[from].kind() != kind {
        lemma_position_of_kind(effects, kind, from + 1);
    }
}

/// The index of the first effect of the kind of `probe`, or the length of
/// `effects` where there is none.
pub fn position_of(effects: &Vec<TrackEffect>, probe: &TrackEffect) -> (j: usize)
    ensures
        j == position_of_kind(effects@, probe.kind(), 0),
        j <= effects@.len(),
        (j < effects@.len()) == (exists|i: int|
            0 <= i < effects@.len() && (#[trigger] effects@[i]).kind() == probe.kind()),
{
    let mut j: usize = 0;
    while j < effects.len() && !effects[j].same_kind(probe)
        invariant
            0 <= j <= effects.len(),
            position_of_kind(effects@, probe.kind(), 0) == position_of_kind(
                effects@,
                probe.kind(),
                j as int,
            ),
        decreases effects.len() - j,
    {
        j += 1;
    }
    proof {
        lemma_position_of_kind(effects@, probe.kind(), 0);
    }
    j
}

} // verus!
