use crate::amount::{Amount, AMOUNT_ONE};
use crate::effect::{position_of, position_of_kind, GlobalEffect, TrackEffect};
use crate::pitch::Pitch;
use vstd::prelude::*;

verus! {

/// One cell of a canonical pattern.
#[derive(Clone, Debug)]
pub struct TrackUnit {
    pub note: Pitch,
    pub velocity: Amount,
    pub instrument: Option<usize>,
    pub effects: Vec<TrackEffect>,
    pub global_effects: Vec<GlobalEffect>,
}

/// What a track unit holds.
pub struct TrackUnitView {
    pub note: Pitch,
    pub velocity: Amount,
    pub instrument: Option<usize>,
    pub effects: Seq<TrackEffect>,
    pub global_effects: Seq<GlobalEffect>,
}

impl View for TrackUnit {
    type V = TrackUnitView;

    open spec fn view(&self) -> TrackUnitView {
        TrackUnitView {
            note: self.note,
            velocity: self.velocity,
            instrument: self.instrument,
            effects: self.effects@,
            global_effects: self.global_effects@,
        }
    }
}

impl DeepView for TrackUnit {
    type V = TrackUnitView;

    open spec fn deep_view(&self) -> TrackUnitView {
        self@
    }
}

impl TrackUnitView {
    /// The unit of an empty cell: no note, full velocity, no effect.
    pub open spec fn empty() -> TrackUnitView {
        TrackUnitView {
            note: Pitch::Empty,
            velocity: Amount { raw: AMOUNT_ONE },
            instrument: None,
            effects: Seq::empty(),
            global_effects: Seq::empty(),
        }
    }
}

impl TrackUnit {
    /// The unit of an empty cell.
    pub fn default() -> (r: TrackUnit)
        ensures
            r@ == TrackUnitView::empty(),
    {
        TrackUnit {
            note: Pitch::Empty,
            velocity: Amount::one(),
            instrument: None,
            effects: Vec::new(),
            global_effects: Vec::new(),
        }
    }

    pub fn has_arpeggio(&self) -> (r: bool)
        ensures
            r == (exists|i: int|
                0 <= i < self.effects@.len() && (#[trigger] self.effects@[i]) is Arpeggio),
    {
        let probe = TrackEffect::Arpeggio { half1: 0, half2: 0 };
        let j = position_of(&self.effects, &probe);
        proof {
            if j < self.effects@.len() {
                let i = choose|i: int|
                    0 <= i < self.effects@.len() && (#[trigger] self.effects@[i]).kind()
                        == probe.kind();
                assert(self.effects@[i] is Arpeggio);
            } else {
                assert forall|i: int| 0 <= i < self.effects@.len() implies !((
                #[trigger] self.effects@[i]) is Arpeggio) by {
                    assert(self.effects@[i].kind() != probe.kind());
                }
            }
        }
        j < self.effects.len()
    }

    pub fn has_delay(&self) -> (r: bool)
        ensures
            r == (exists|i: int|
                0 <= i < self.effects@.len() && (#[trigger] self.effects@[i]) is NoteDelay),
    {
        let probe = TrackEffect::NoteDelay(0);
        let j = position_of(&self.effects, &probe);
        proof {
            if j < self.effects@.len() {
                let i = choose|i: int|
                    0 <= i < self.effects@.len() && (#[trigger] self.effects@[i]).kind()
                        == probe.kind();
                assert(self.effects@[i] is NoteDelay);
            } else {
                assert forall|i: int| 0 <= i < self.effects@.len() implies !((
                #[trigger] self.effects@[i]) is NoteDelay) by {
                    assert(self.effects@[i].kind() != probe.kind());
                }
            }
        }
        j < self.effects.len()
    }

    /// The delay of the first note delay among the effects, or 0.
    pub open spec fn spec_get_delay(effects: Seq<TrackEffect>) -> usize {
        let j = position_of_kind(effects, TrackEffect::NoteDelay(0).kind(), 0);
        if j < effects.len() {
            match effects[j] {
                TrackEffect::NoteDelay(delay) => delay,
                _ => 0,
            }
        } else {
            0
        }
    }

    pub fn get_delay(&self) -> (r: usize)
        ensures
            r == Self::spec_get_delay(self.effects@),
    {
        let probe = TrackEffect::NoteDelay(0);
        let j = position_of(&self.effects, &probe);
        if j < self.effects.len() {
            match self.effects[j] {
                TrackEffect::NoteDelay(delay) => delay,
                _ => 0,
            }
        } else {
            0
        }
    }

    /// Whether the cell releases its note, by an effect or by the note itself.
    pub fn has_note_off(&self) -> (r: bool)
        ensures
            r == ((exists|i: int|
                0 <= i < self.effects@.len() && (#[trigger] self.effects@[i]) is NoteOff)
                || self.note == Pitch::KeyOff),
    {
        let probe = TrackEffect::NoteOff { tick: 0, past: false };
        let j = position_of(&self.effects, &probe);
        proof {
            if j < self.effects@.len() {
                let i = choose|i: int|
                    0 <= i < self.effects@.len() && (#[trigger] self.effects@[i]).kind()
                        == probe.kind();
                assert(self.effects@[i] is NoteOff);
            } else {
                assert forall|i: int| 0 <= i < self.effects@.len() implies !((
                #[trigger] self.effects@[i]) is NoteOff) by {
                    assert(self.effects@[i].kind() != probe.kind());
                }
            }
        }
        j < self.effects.len() || self.note.is_keyoff()
    }

    pub fn has_tone_portamento(&self) -> (r: bool)
        ensures
            r == (exists|i: int|
                0 <= i < self.effects@.len() && (#[trigger] self.effects@[i]) is TonePortamento),
    {
        let probe = TrackEffect::TonePortamento(Amount::zero());
        let j = position_of(&self.effects, &probe);
        proof {
            if j < self.effects@.len() {
                let i = choose|i: int|
                    0 <= i < self.effects@.len() && (#[trigger] self.effects@[i]).kind()
                        == probe.kind();
                assert(self.effects@[i] is TonePortamento);
            } else {
                assert forall|i: int| 0 <= i < self.effects@.len() implies !((
                #[trigger] self.effects@[i]) is TonePortamento) by {
                    assert(self.effects@[i].kind() != probe.kind());
                }
            }
        }
        j < self.effects.len()
    }

    pub fn has_vibrato(&self) -> (r: bool)
        ensures
            r == (exists|i: int|
                0 <= i < self.effects@.len() && (#[trigger] self.effects@[i]) is Vibrato),
    {
        let probe = TrackEffect::Vibrato { speed: Amount::zero(), depth: Amount::zero() };
        let j = position_of(&self.effects, &probe);
        proof {
            if j < self.effects@.len() {
                let i = choose|i: int|
                    0 <= i < self.effects@.len() && (#[trigger] self.effects@[i]).kind()
                        == probe.kind();
                assert(self.effects@[i] is Vibrato);
            } else {
                assert forall|i: int| 0 <= i < self.effects@.len() implies !((
                #[trigger] self.effects@[i]) is Vibrato) by {
                    assert(self.effects@[i].kind() != probe.kind());
                }
            }
        }
        j < self.effects.len()
    }

    pub fn has_volume_slide(&self) -> (r: bool)
        ensures
            r == (exists|i: int|
                0 <= i < self.effects@.len() && (#[trigger] self.effects@[i]) is VolumeSlide),
    {
        let probe = TrackEffect::VolumeSlide { speed: Amount::zero(), fine: false };
        let j = position_of(&self.effects, &probe);
        proof {
            if j < self.effects@.len() {
                let i = choose|i: int|
                    0 <= i < self.effects@.len() && (#[trigger] self.effects@[i]).kind()
                        == probe.kind();
                assert(self.effects@[i] is VolumeSlide);
            } else {
                assert forall|i: int| 0 <= i < self.effects@.len() implies !((
                #[trigger] self.effects@[i]) is VolumeSlide) by {
                    assert(self.effects@[i].kind() != probe.kind());
                }
            }
        }
        j < self.effects.len()
    }
}

} // verus!
