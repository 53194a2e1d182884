use crate::amount::{Amount, AMOUNT_ONE};
use crate::effect::GlobalEffect;
use crate::pitch::Pitch;
use crate::track_import_effect::TrackImportEffect;
use crate::track_unit::{TrackUnit, TrackUnitView};
use vstd::prelude::*;

verus! {

/// One cell of a pattern on its way in: its effects are still in the form
/// of the file format, with effect memory not yet resolved.
#[derive(Clone, Debug)]
pub struct TrackImportUnit {
    pub note: Pitch,
    pub velocity: Amount,
    pub instrument: Option<usize>,
    pub effects: Vec<TrackImportEffect>,
    pub global_effects: Vec<GlobalEffect>,
}

/// What a track import unit holds.
pub struct TrackImportUnitView {
    pub note: Pitch,
    pub velocity: Amount,
    pub instrument: Option<usize>,
    pub effects: Seq<TrackImportEffect>,
    pub global_effects: Seq<GlobalEffect>,
}

impl View for TrackImportUnit {
    type V = TrackImportUnitView;

    open spec fn view(&self) -> TrackImportUnitView {
        TrackImportUnitView {
            note: self.note,
            velocity: self.velocity,
            instrument: self.instrument,
            effects: self.effects@,
            global_effects: self.global_effects@,
        }
    }
}

impl DeepView for TrackImportUnit {
    type V = TrackImportUnitView;

    open spec fn deep_view(&self) -> TrackImportUnitView {
        self@
    }
}

impl TrackImportUnitView {
    /// The unit of an empty cell: no note, full velocity, no effect.
    pub open spec fn empty() -> TrackImportUnitView {
        TrackImportUnitView {
            note: Pitch::Empty,
            velocity: Amount { raw: AMOUNT_ONE },
            instrument: None,
            effects: Seq::empty(),
            global_effects: Seq::empty(),
        }
    }

    /// The canonical unit with the note, velocity, instrument and global
    /// effects of this one, and no track effect yet.
    pub open spec fn prepared(self) -> TrackUnitView {
        TrackUnitView {
            note: self.note,
            velocity: self.velocity,
            instrument: self.instrument,
            effects: Seq::empty(),
            global_effects: self.global_effects,
        }
    }
}

impl TrackImportUnit {
    /// The unit of an empty cell.
    pub fn default() -> (r: TrackImportUnit)
        ensures
            r@ == TrackImportUnitView::empty(),
    {
        TrackImportUnit {
            note: Pitch::Empty,
            velocity: Amount::one(),
            instrument: None,
            effects: Vec::new(),
            global_effects: Vec::new(),
        }
    }

    /// The canonical unit of this cell, still without its track effects.
    pub fn prepare_track_unit(&self) -> (r: TrackUnit)
        ensures
            r@ == self@.prepared(),
    {
        let mut global_effects: Vec<GlobalEffect> = Vec::new();
        let mut i: usize = 0;
        while i < self.global_effects.len()
            invariant
                0 <= i <= self.global_effects.len(),
                global_effects@ == self.global_effects@.take(i as int),
            decreases self.global_effects.len() - i,
        {
            global_effects.push(self.global_effects[i]);
            i += 1;
        }
        proof {
            assert(self.global_effects@.take(self.global_effects.len() as int)
                == self.global_effects@);
        }
        TrackUnit {
            note: self.note,
            velocity: self.velocity,
            instrument: self.instrument,
            effects: Vec::new(),
            global_effects,
        }
    }
}

} // verus!
