//! Effect memory.
//!
//! In the tracker formats a parameter of 0 often stands for "the value used
//! last". Which effects remember their value, and whether a channel has its
//! own memory for each effect or one memory for all of them, depends on the
//! format:
//!
//! | effect                  | MOD | XM  | S3M    | IT  |
//! | ----------------------- | --- | --- | ------ | --- |
//! | arpeggio                |     |     | shared | yes |
//! | panbrello               |     | yes | yes    | yes |
//! | panning slide           |     | yes | yes    | yes |
//! | pitch slides            |     | yes | shared | yes |
//! | extended retrigger      |     | yes | shared | yes |
//! | tone portamento         | yes | yes | yes    | yes |
//! | tremolo                 | yes | yes | shared | yes |
//! | tremor                  |     | yes | shared | yes |
//! | sample offset           | yes | yes | yes    | yes |
//! | high sample offset      |     |     |        | yes |
//! | vibrato                 | yes | yes | yes    | yes |
//! | fine vibrato            |     |     | yes    |     |
//! | volume slides           |     | yes | shared | yes |
//! | volume column portamento|     | yes |        |     |
//! | volume column vibrato   |     | yes |        |     |
//! | channel volume slide    |     | yes | yes    | yes |
//! | global volume slide     |     | yes | yes    | yes |
//! | tempo slide             |     | yes | yes    | yes |
//!
//! Patterns are replayed in the order of the song, and each visit works on
//! the pattern as the visits before left it. A pattern that the song plays
//! after different patterns cannot be resolved for each of them: a zero is
//! replaced at the first visit that finds a value remembered, and every
//! visit remembers the values that the pattern then holds.

use crate::amount::Amount;
use crate::effect::{GlobalEffect, TrackEffect};
use crate::it_effect::{spec_it_unpack_pattern, ItEffect};
use crate::mod_xm_effect::{spec_mod_xm_unpack_pattern, ModXmEffect};
use crate::patternslot::PatternSlot;
use crate::period_helper::FrequencyType;
use crate::track_import_effect::{spec_to_track_effects, TrackImportEffect};
use crate::track_import_unit::{TrackImportUnit, TrackImportUnitView};
use crate::track_unit::{TrackUnit, TrackUnitView};
use vstd::prelude::*;

verus! {

/// The family of formats whose memory rules apply.
#[derive(Clone, Copy, Debug, PartialEq, Eq, Structural)]
pub enum MemoryType {
    Mod,
    Xm,
    S3m,
    It,
}

pub const ARPEGGIO: usize = 0;

pub const PANBRELLO: usize = 1;

pub const PANNING_SLIDE: usize = 2;

pub const PORTAMENTO_UP: usize = 3;

pub const PORTAMENTO_DOWN: usize = 4;

pub const PORTAMENTO_FINE_UP: usize = 5;

pub const PORTAMENTO_FINE_DOWN: usize = 6;

pub const PORTAMENTO_FINE_EXTRA_UP: usize = 7;

pub const PORTAMENTO_FINE_EXTRA_DOWN: usize = 8;

pub const NOTE_RETRIG_EXTENDED: usize = 9;

pub const TONE_PORTAMENTO: usize = 10;

pub const TREMOLO: usize = 11;

pub const TREMOR: usize = 12;

pub const SAMPLE_OFFSET: usize = 13;

pub const VIBRATO: usize = 14;

pub const VIBRATO_FINE: usize = 15;

pub const PITCH_VOLUME_SLIDE_0: usize = 16;

pub const PITCH_VOLUME_SLIDE_N: usize = 17;

pub const FX_VOLUME_TONE_PORTAMENTO: usize = 18;

pub const FX_VOLUME_VIBRATO_DEPTH: usize = 19;

pub const CHANNEL_VOLUME_SLIDE: usize = 20;

pub const GLOBAL_VOLUME_SLIDE: usize = 21;

pub const TEMPO_UP: usize = 22;

pub const TEMPO_DOWN: usize = 23;

pub const SAMPLE_OFFSET_ADD_HIGH: usize = 24;

/// The number of memory slots of a channel.
pub const ARRAY_SIZE: usize = 25;

/// The number of channels that have a memory.
pub const CHANNELS: usize = 64;

/// What one memory slot remembers: up to two amounts and two counts. An
/// effect uses the fields of its own types, from the first on.
#[derive(Clone, Copy, Debug, PartialEq, Eq, Structural)]
pub struct MemorySlot {
    pub a0: Amount,
    pub a1: Amount,
    pub n0: usize,
    pub n1: usize,
}

/// Where an effect keeps its memory.
#[derive(Clone, Copy, Debug, PartialEq, Eq, Structural)]
pub enum MemoryScope {
    /// The effect has no memory: a zero stays a zero.
    Unused,
    /// The slot of this number, in the memory of the channel.
    Channel(usize),
    /// The one slot that the channel's column shares among all effects.
    Shared,
}

/// The state of the effect memory: one shared slot for each of 64 channels,
/// and 25 slots of its own for each of them, channel after channel.
pub struct MemoryBank {
    pub global: Seq<MemorySlot>,
    pub channel: Seq<MemorySlot>,
}

impl MemorySlot {
    /// The slot that remembers nothing.
    pub open spec fn zero() -> MemorySlot {
        MemorySlot { a0: Amount { raw: 0 }, a1: Amount { raw: 0 }, n0: 0, n1: 0 }
    }
}

impl MemoryBank {
    /// A bank has 64 shared slots and 64 times 25 channel slots.
    pub open spec fn well_formed(self) -> bool {
        self.global.len() == CHANNELS && self.channel.len() == CHANNELS * ARRAY_SIZE
    }

    /// The bank that remembers nothing.
    pub open spec fn fresh() -> MemoryBank {
        MemoryBank {
            global: Seq::new(CHANNELS as nat, |i: int| MemorySlot::zero()),
            channel: Seq::new((CHANNELS * ARRAY_SIZE) as nat, |i: int| MemorySlot::zero()),
        }
    }

    /// The slot that the effects of channel `index` find under `scope`.
    pub open spec fn slot(self, index: int, scope: MemoryScope) -> MemorySlot {
        match scope {
            MemoryScope::Unused => MemorySlot::zero(),
            MemoryScope::Channel(s) => self.channel[index * ARRAY_SIZE + s],
            MemoryScope::Shared => self.global[index],
        }
    }

    /// The bank with the slot under `scope` of channel `index` set to `slot`.
    pub open spec fn with_slot(self, index: int, scope: MemoryScope, slot: MemorySlot) -> MemoryBank {
        match scope {
            MemoryScope::Unused => self,
            MemoryScope::Channel(s) => MemoryBank {
                global: self.global,
                channel: self.channel.update(index * ARRAY_SIZE + s, slot),
            },
            MemoryScope::Shared => MemoryBank {
                global: self.global.update(index, slot),
                channel: self.channel,
            },
        }
    }
}

/// The slot in which a format keeps the memory of a track effect.
pub open spec fn spec_memory_scope(mem: MemoryType, e: TrackImportEffect) -> MemoryScope {
    match e {
        TrackImportEffect::Arpeggio(_, _) => match mem {
            MemoryType::Mod | MemoryType::Xm => MemoryScope::Unused,
            MemoryType::It => MemoryScope::Channel(ARPEGGIO),
            MemoryType::S3m => MemoryScope::Shared,
        },
        TrackImportEffect::Panbrello(_, _) => match mem {
            MemoryType::Mod => MemoryScope::Unused,
            _ => MemoryScope::Channel(PANBRELLO),
        },
        TrackImportEffect::ChannelPanningSlideN(_) => match mem {
            MemoryType::Mod => MemoryScope::Unused,
            _ => MemoryScope::Channel(PANNING_SLIDE),
        },
        TrackImportEffect::PortamentoUp(_) => match mem {
            MemoryType::Mod => MemoryScope::Unused,
            MemoryType::S3m => MemoryScope::Shared,
            _ => MemoryScope::Channel(PORTAMENTO_UP),
        },
        TrackImportEffect::PortamentoDown(_) => match mem {
            MemoryType::Mod => MemoryScope::Unused,
            MemoryType::S3m => MemoryScope::Shared,
            _ => MemoryScope::Channel(PORTAMENTO_DOWN),
        },
        TrackImportEffect::PortamentoFineUp(_) => match mem {
            MemoryType::Mod => MemoryScope::Unused,
            MemoryType::S3m => MemoryScope::Shared,
            _ => MemoryScope::Channel(PORTAMENTO_FINE_UP),
        },
        TrackImportEffect::PortamentoFineDown(_) => match mem {
            MemoryType::Mod => MemoryScope::Unused,
            MemoryType::S3m => MemoryScope::Shared,
            _ => MemoryScope::Channel(PORTAMENTO_FINE_DOWN),
        },
        TrackImportEffect::PortamentoExtraFineUp(_) => match mem {
            MemoryType::Mod => MemoryScope::Unused,
            MemoryType::S3m => MemoryScope::Shared,
            _ => MemoryScope::Channel(PORTAMENTO_FINE_EXTRA_UP),
        },
        TrackImportEffect::PortamentoExtraFineDown(_) => match mem {
            MemoryType::Mod => MemoryScope::Unused,
            MemoryType::S3m => MemoryScope::Shared,
            _ => MemoryScope::Channel(PORTAMENTO_FINE_EXTRA_DOWN),
        },
        TrackImportEffect::NoteRetrigExtended(_, _) => match mem {
            MemoryType::Mod => MemoryScope::Unused,
            MemoryType::S3m => MemoryScope::Shared,
            _ => MemoryScope::Channel(NOTE_RETRIG_EXTENDED),
        },
        TrackImportEffect::TonePortamento(_) => MemoryScope::Channel(TONE_PORTAMENTO),
        TrackImportEffect::Tremolo(_, _) => match mem {
            MemoryType::S3m => MemoryScope::Shared,
            _ => MemoryScope::Channel(TREMOLO),
        },
        TrackImportEffect::Tremor(_, _) => match mem {
            MemoryType::Mod => MemoryScope::Unused,
            MemoryType::S3m => MemoryScope::Shared,
            _ => MemoryScope::Channel(TREMOR),
        },
        TrackImportEffect::InstrumentSampleOffset(_) => MemoryScope::Channel(SAMPLE_OFFSET),
        TrackImportEffect::InstrumentSampleOffsetAddHigh(_) => match mem {
            MemoryType::It => MemoryScope::Channel(SAMPLE_OFFSET_ADD_HIGH),
            _ => MemoryScope::Unused,
        },
        TrackImportEffect::Vibrato(_, _) => MemoryScope::Channel(VIBRATO),
        TrackImportEffect::VibratoFine(_, _) => match mem {
            MemoryType::S3m => MemoryScope::Channel(VIBRATO_FINE),
            _ => MemoryScope::Unused,
        },
        TrackImportEffect::VolumeSlide0(_) => match mem {
            MemoryType::Mod => MemoryScope::Unused,
            MemoryType::S3m => MemoryScope::Shared,
            _ => MemoryScope::Channel(PITCH_VOLUME_SLIDE_0),
        },
        TrackImportEffect::VolumeSlideN(_) => match mem {
            MemoryType::Mod => MemoryScope::Unused,
            MemoryType::S3m => MemoryScope::Shared,
            _ => MemoryScope::Channel(PITCH_VOLUME_SLIDE_N),
        },
        TrackImportEffect::TonePortamentoFxVol(_) => match mem {
            MemoryType::Xm => MemoryScope::Channel(FX_VOLUME_TONE_PORTAMENTO),
            _ => MemoryScope::Unused,
        },
        TrackImportEffect::VibratoDepthFxVol(_) => match mem {
            MemoryType::Xm => MemoryScope::Channel(FX_VOLUME_VIBRATO_DEPTH),
            _ => MemoryScope::Unused,
        },
        TrackImportEffect::ChannelVolumeSlide0(_) | TrackImportEffect::ChannelVolumeSlideN(_) => {
            match mem {
                MemoryType::Mod => MemoryScope::Unused,
                _ => MemoryScope::Channel(CHANNEL_VOLUME_SLIDE),
            }
        },
        _ => MemoryScope::Unused,
    }
}

/// The parameters of an effect that take part in effect memory, laid out as
/// a slot holds them; a field that the effect does not have is 0.
pub open spec fn spec_params(e: TrackImportEffect) -> MemorySlot {
    let z = MemorySlot::zero();
    match e {
        TrackImportEffect::Arpeggio(a, b) => MemorySlot { n0: a, n1: b, ..z },
        TrackImportEffect::NoteRetrigExtended(a, b) => MemorySlot { n0: a, n1: b, ..z },
        TrackImportEffect::Tremor(a, b) => MemorySlot { n0: a, n1: b, ..z },
        TrackImportEffect::InstrumentSampleOffset(a) => MemorySlot { n0: a, ..z },
        TrackImportEffect::InstrumentSampleOffsetAddHigh(a) => MemorySlot { n0: a, ..z },
        TrackImportEffect::Panbrello(a, b) => MemorySlot { a0: a, a1: b, ..z },
        TrackImportEffect::Tremolo(a, b) => MemorySlot { a0: a, a1: b, ..z },
        TrackImportEffect::Vibrato(a, b) => MemorySlot { a0: a, a1: b, ..z },
        TrackImportEffect::VibratoFine(a, b) => MemorySlot { a0: a, a1: b, ..z },
        TrackImportEffect::ChannelPanningSlideN(a) => MemorySlot { a0: a, ..z },
        TrackImportEffect::PortamentoUp(a) => MemorySlot { a0: a, ..z },
        TrackImportEffect::PortamentoDown(a) => MemorySlot { a0: a, ..z },
        TrackImportEffect::PortamentoFineUp(a) => MemorySlot { a0: a, ..z },
        TrackImportEffect::PortamentoFineDown(a) => MemorySlot { a0: a, ..z },
        TrackImportEffect::PortamentoExtraFineUp(a) => MemorySlot { a0: a, ..z },
        TrackImportEffect::PortamentoExtraFineDown(a) => MemorySlot { a0: a, ..z },
        TrackImportEffect::TonePortamento(a) => MemorySlot { a0: a, ..z },
        TrackImportEffect::TonePortamentoFxVol(a) => MemorySlot { a0: a, ..z },
        TrackImportEffect::VibratoDepthFxVol(a) => MemorySlot { a0: a, ..z },
        TrackImportEffect::VolumeSlide0(a) => MemorySlot { a0: a, ..z },
        TrackImportEffect::VolumeSlideN(a) => MemorySlot { a0: a, ..z },
        TrackImportEffect::ChannelVolumeSlide0(a) => MemorySlot { a0: a, ..z },
        TrackImportEffect::ChannelVolumeSlideN(a) => MemorySlot { a0: a, ..z },
        _ => z,
    }
}

/// The effect with the parameters that take part in effect memory taken
/// from `slot`.
pub open spec fn spec_with_params(e: TrackImportEffect, slot: MemorySlot) -> TrackImportEffect {
    match e {
        TrackImportEffect::Arpeggio(_, _) => TrackImportEffect::Arpeggio(slot.n0, slot.n1),
        TrackImportEffect::NoteRetrigExtended(_, _) => TrackImportEffect::NoteRetrigExtended(
            slot.n0,
            slot.n1,
        ),
        TrackImportEffect::Tremor(_, _) => TrackImportEffect::Tremor(slot.n0, slot.n1),
        TrackImportEffect::InstrumentSampleOffset(_) => TrackImportEffect::InstrumentSampleOffset(
            slot.n0,
        ),
        TrackImportEffect::InstrumentSampleOffsetAddHigh(_) => {
            TrackImportEffect::InstrumentSampleOffsetAddHigh(slot.n0)
        },
        TrackImportEffect::Panbrello(_, _) => TrackImportEffect::Panbrello(slot.a0, slot.a1),
        TrackImportEffect::Tremolo(_, _) => TrackImportEffect::Tremolo(slot.a0, slot.a1),
        TrackImportEffect::Vibrato(_, _) => TrackImportEffect::Vibrato(slot.a0, slot.a1),
        TrackImportEffect::VibratoFine(_, _) => TrackImportEffect::VibratoFine(slot.a0, slot.a1),
        TrackImportEffect::ChannelPanningSlideN(_) => TrackImportEffect::ChannelPanningSlideN(
            slot.a0,
        ),
        TrackImportEffect::PortamentoUp(_) => TrackImportEffect::PortamentoUp(slot.a0),
        TrackImportEffect::PortamentoDown(_) => TrackImportEffect::PortamentoDown(slot.a0),
        TrackImportEffect::PortamentoFineUp(_) => TrackImportEffect::PortamentoFineUp(slot.a0),
        TrackImportEffect::PortamentoFineDown(_) => TrackImportEffect::PortamentoFineDown(slot.a0),
        TrackImportEffect::PortamentoExtraFineUp(_) => TrackImportEffect::PortamentoExtraFineUp(
            slot.a0,
        ),
        TrackImportEffect::PortamentoExtraFineDown(_) => {
            TrackImportEffect::PortamentoExtraFineDown(slot.a0)
        },
        TrackImportEffect::TonePortamento(_) => TrackImportEffect::TonePortamento(slot.a0),
        TrackImportEffect::TonePortamentoFxVol(_) => TrackImportEffect::TonePortamentoFxVol(
            slot.a0,
        ),
        TrackImportEffect::VibratoDepthFxVol(_) => TrackImportEffect::VibratoDepthFxVol(slot.a0),
        TrackImportEffect::VolumeSlide0(_) => TrackImportEffect::VolumeSlide0(slot.a0),
        TrackImportEffect::VolumeSlideN(_) => TrackImportEffect::VolumeSlideN(slot.a0),
        TrackImportEffect::ChannelVolumeSlide0(_) => TrackImportEffect::ChannelVolumeSlide0(
            slot.a0,
        ),
        TrackImportEffect::ChannelVolumeSlideN(_) => TrackImportEffect::ChannelVolumeSlideN(
            slot.a0,
        ),
        _ => e,
    }
}

/// The fields of a slot that an effect has a parameter for: its amounts
/// first (one or two), or its counts (one or two).
pub open spec fn spec_uses(e: TrackImportEffect) -> (bool, bool, bool, bool) {
    match e {
        TrackImportEffect::Arpeggio(_, _) => (false, false, true, true),
        TrackImportEffect::NoteRetrigExtended(_, _) => (false, false, true, true),
        TrackImportEffect::Tremor(_, _) => (false, false, true, true),
        TrackImportEffect::InstrumentSampleOffset(_) => (false, false, true, false),
        TrackImportEffect::InstrumentSampleOffsetAddHigh(_) => (false, false, true, false),
        TrackImportEffect::Panbrello(_, _) => (true, true, false, false),
        TrackImportEffect::Tremolo(_, _) => (true, true, false, false),
        TrackImportEffect::Vibrato(_, _) => (true, true, false, false),
        TrackImportEffect::VibratoFine(_, _) => (true, true, false, false),
        TrackImportEffect::ChannelPanningSlideN(_) => (true, false, false, false),
        TrackImportEffect::PortamentoUp(_) => (true, false, false, false),
        TrackImportEffect::PortamentoDown(_) => (true, false, false, false),
        TrackImportEffect::PortamentoFineUp(_) => (true, false, false, false),
        TrackImportEffect::PortamentoFineDown(_) => (true, false, false, false),
        TrackImportEffect::PortamentoExtraFineUp(_) => (true, false, false, false),
        TrackImportEffect::PortamentoExtraFineDown(_) => (true, false, false, false),
        TrackImportEffect::TonePortamento(_) => (true, false, false, false),
        TrackImportEffect::TonePortamentoFxVol(_) => (true, false, false, false),
        TrackImportEffect::VibratoDepthFxVol(_) => (true, false, false, false),
        TrackImportEffect::VolumeSlide0(_) => (true, false, false, false),
        TrackImportEffect::VolumeSlideN(_) => (true, false, false, false),
        TrackImportEffect::ChannelVolumeSlide0(_) => (true, false, false, false),
        TrackImportEffect::ChannelVolumeSlideN(_) => (true, false, false, false),
        _ => (false, false, false, false),
    }
}

/// The amount that stands after an effect has met its memory: the one it
/// gave, or the one remembered where it gave 0.
pub open spec fn pick_amount(stored: Amount, given: Amount) -> Amount {
    if given.raw == 0 {
        stored
    } else {
        given
    }
}

/// The count that stands after an effect has met its memory: the one it
/// gave, or the one remembered where it gave 0.
pub open spec fn pick_count(stored: usize, given: usize) -> usize {
    if given == 0 {
        stored
    } else {
        given
    }
}

/// The slot after an effect with the parameters `given` has met it: each
/// field that the effect uses stands as `pick_amount` and `pick_count` say,
/// the others stay.
pub open spec fn pick_slot(stored: MemorySlot, given: MemorySlot, uses: (bool, bool, bool, bool)) -> MemorySlot {
    MemorySlot {
        a0: if uses.0 {
            pick_amount(stored.a0, given.a0)
        } else {
            stored.a0
        },
        a1: if uses.1 {
            pick_amount(stored.a1, given.a1)
        } else {
            stored.a1
        },
        n0: if uses.2 {
            pick_count(stored.n0, given.n0)
        } else {
            stored.n0
        },
        n1: if uses.3 {
            pick_count(stored.n1, given.n1)
        } else {
            stored.n1
        },
    }
}

/// One track effect of channel `index` meets the memory: the effect as it
/// stands afterwards, and the bank as it stands afterwards.
///
/// An effect without memory in the format passes unchanged. Otherwise each
/// parameter of 0 is replaced by the remembered value, and each other
/// parameter is remembered. Two effects differ: a sample offset of 0 is
/// replaced by the remembered offset plus the remembered high part; and a
/// high part is always remembered, 0 or not, and passes unchanged.
pub open spec fn spec_resolve_effect(
    bank: MemoryBank,
    mem: MemoryType,
    index: int,
    e: TrackImportEffect,
) -> (TrackImportEffect, MemoryBank) {
    let scope = spec_memory_scope(mem, e);
    if scope == MemoryScope::Unused {
        (e, bank)
    } else {
        match e {
            TrackImportEffect::InstrumentSampleOffset(a) => {
                if a == 0 {
                    (
                        TrackImportEffect::InstrumentSampleOffset(
                            crate::effect::saturating_sum(
                                bank.slot(index, scope).n0,
                                bank.slot(index, MemoryScope::Channel(SAMPLE_OFFSET_ADD_HIGH)).n0,
                            ),
                        ),
                        bank,
                    )
                } else {
                    (
                        e,
                        bank.with_slot(
                            index,
                            scope,
                            MemorySlot { n0: a, ..bank.slot(index, scope) },
                        ),
                    )
                }
            },
            TrackImportEffect::InstrumentSampleOffsetAddHigh(a) => (
                e,
                bank.with_slot(index, scope, MemorySlot { n0: a, ..bank.slot(index, scope) }),
            ),
            _ => {
                let now = pick_slot(bank.slot(index, scope), spec_params(e), spec_uses(e));
                (spec_with_params(e, now), bank.with_slot(index, scope, now))
            },
        }
    }
}

/// One global effect found on channel `index` meets the memory.
///
/// Only tempo slides and global volume slides have memory, and none in MOD.
/// A tempo slide of 0 takes the remembered upward slide; another is
/// remembered as an upward or a downward slide by its sign. A global volume
/// slide shares its memory with the channel volume slides.
pub open spec fn spec_resolve_global_effect(
    bank: MemoryBank,
    mem: MemoryType,
    index: int,
    g: GlobalEffect,
) -> (GlobalEffect, MemoryBank) {
    if mem == MemoryType::Mod {
        (g, bank)
    } else {
        match g {
            GlobalEffect::BpmSlide(a) => {
                let scope = MemoryScope::Channel(
                    if a < 0 {
                        TEMPO_DOWN
                    } else {
                        TEMPO_UP
                    },
                );
                if a == 0 {
                    (GlobalEffect::BpmSlide(bank.slot(index, scope).n0 as isize), bank)
                } else {
                    (
                        g,
                        bank.with_slot(
                            index,
                            scope,
                            MemorySlot { n0: a as usize, ..bank.slot(index, scope) },
                        ),
                    )
                }
            },
            GlobalEffect::VolumeSlide { speed, fine } => {
                let scope = MemoryScope::Channel(CHANNEL_VOLUME_SLIDE);
                let now = MemorySlot {
                    a0: pick_amount(bank.slot(index, scope).a0, speed),
                    ..bank.slot(index, scope)
                };
                (GlobalEffect::VolumeSlide { speed: now.a0, fine }, bank.with_slot(index, scope, now))
            },
            _ => (g, bank),
        }
    }
}

/// The track effects of a cell meet the memory, from the first to the last.
pub open spec fn spec_resolve_effects(
    bank: MemoryBank,
    mem: MemoryType,
    index: int,
    effects: Seq<TrackImportEffect>,
) -> (Seq<TrackImportEffect>, MemoryBank)
    decreases effects.len(),
{
    if effects.len() == 0 {
        (Seq::empty(), bank)
    } else {
        let before = spec_resolve_effects(bank, mem, index, effects.drop_last());
        let last = spec_resolve_effect(before.1, mem, index, effects.last());
        (before.0.push(last.0), last.1)
    }
}

/// The global effects of a cell meet the memory, from the first to the last.
pub open spec fn spec_resolve_global_effects(
    bank: MemoryBank,
    mem: MemoryType,
    index: int,
    effects: Seq<GlobalEffect>,
) -> (Seq<GlobalEffect>, MemoryBank)
    decreases effects.len(),
{
    if effects.len() == 0 {
        (Seq::empty(), bank)
    } else {
        let before = spec_resolve_global_effects(bank, mem, index, effects.drop_last());
        let last = spec_resolve_global_effect(before.1, mem, index, effects.last());
        (before.0.push(last.0), last.1)
    }
}

/// A cell of channel `index` meets the memory: its track effects first, then
/// its global effects.
pub open spec fn spec_update_memory(
    bank: MemoryBank,
    mem: MemoryType,
    index: int,
    unit: TrackImportUnitView,
) -> (TrackImportUnitView, MemoryBank) {
    let te = spec_resolve_effects(bank, mem, index, unit.effects);
    let ge = spec_resolve_global_effects(te.1, mem, index, unit.global_effects);
    (TrackImportUnitView { effects: te.0, global_effects: ge.0, ..unit }, ge.1)
}

/// The cells of a row meet the memory, channel 0 first; the cell at place
/// `k` meets it as channel `k`.
pub open spec fn spec_resolve_row(bank: MemoryBank, mem: MemoryType, row: Seq<TrackImportUnitView>) -> (
    Seq<TrackImportUnitView>,
    MemoryBank,
)
    decreases row.len(),
{
    if row.len() == 0 {
        (Seq::empty(), bank)
    } else {
        let before = spec_resolve_row(bank, mem, row.drop_last());
        let last = spec_update_memory(before.1, mem, row.len() - 1, row.last());
        (before.0.push(last.0), last.1)
    }
}

/// The rows of a pattern meet the memory, from the first to the last.
pub open spec fn spec_resolve_pattern(
    bank: MemoryBank,
    mem: MemoryType,
    pattern: Seq<Seq<TrackImportUnitView>>,
) -> (Seq<Seq<TrackImportUnitView>>, MemoryBank)
    decreases pattern.len(),
{
    if pattern.len() == 0 {
        (Seq::empty(), bank)
    } else {
        let before = spec_resolve_pattern(bank, mem, pattern.drop_last());
        let last = spec_resolve_row(before.1, mem, pattern.last());
        (before.0.push(last.0), last.1)
    }
}

/// Whether no row of the pattern has more cells than there are channels
/// with a memory.
pub open spec fn rows_fit<T>(pattern: Seq<Seq<T>>) -> bool {
    forall|r: int| 0 <= r < pattern.len() ==> (#[trigger] pattern[r]).len() <= CHANNELS
}

/// Whether no row of any pattern has more cells than there are channels
/// with a memory.
pub open spec fn patterns_fit<T>(patterns: Seq<Seq<Seq<T>>>) -> bool {
    forall|p: int| 0 <= p < patterns.len() ==> rows_fit(#[trigger] patterns[p])
}

/// The import units of a raw pattern, read by the decoder of the format:
/// that of IT for IT, that of MOD and XM for the others.
pub open spec fn spec_unpack_pattern(
    freq_type: FrequencyType,
    mem: MemoryType,
    pattern: Seq<Seq<PatternSlot>>,
) -> Seq<Seq<TrackImportUnitView>> {
    match mem {
        MemoryType::It => spec_it_unpack_pattern(freq_type, pattern),
        _ => spec_mod_xm_unpack_pattern(freq_type, pattern),
    }
}

/// The patterns and the bank after the patterns of one song have met the
/// memory in the order the song plays them. Each visit works on the pattern
/// as the visits before left it; an index without a pattern is passed over.
pub open spec fn spec_replay_song(
    bank: MemoryBank,
    mem: MemoryType,
    song: Seq<usize>,
    patterns: Seq<Seq<Seq<TrackImportUnitView>>>,
) -> (Seq<Seq<Seq<TrackImportUnitView>>>, MemoryBank)
    decreases song.len(),
{
    if song.len() == 0 {
        (patterns, bank)
    } else {
        let before = spec_replay_song(bank, mem, song.drop_last(), patterns);
        let o = song.last() as int;
        if o < before.0.len() {
            let visit = spec_resolve_pattern(before.1, mem, before.0[o]);
            (before.0.update(o, visit.0), visit.1)
        } else {
            before
        }
    }
}

/// The patterns and the bank after all songs of the order were replayed,
/// one after the other, on one memory.
pub open spec fn spec_replay(
    bank: MemoryBank,
    mem: MemoryType,
    order: Seq<Seq<usize>>,
    patterns: Seq<Seq<Seq<TrackImportUnitView>>>,
) -> (Seq<Seq<Seq<TrackImportUnitView>>>, MemoryBank)
    decreases order.len(),
{
    if order.len() == 0 {
        (patterns, bank)
    } else {
        let before = spec_replay(bank, mem, order.drop_last(), patterns);
        spec_replay_song(before.1, mem, order.last(), before.0)
    }
}

/// The import units of raw patterns, with effect memory resolved along the
/// order, and the bank afterwards.
pub open spec fn spec_apply_memory(
    bank: MemoryBank,
    freq_type: FrequencyType,
    mem: MemoryType,
    order: Seq<Seq<usize>>,
    patterns: Seq<Seq<Seq<PatternSlot>>>,
) -> (Seq<Seq<Seq<TrackImportUnitView>>>, MemoryBank) {
    spec_replay(
        bank,
        mem,
        order,
        patterns.map_values(|p: Seq<Seq<PatternSlot>>| spec_unpack_pattern(freq_type, mem, p)),
    )
}

/// Whether the order plays the pattern of index `p`.
pub open spec fn order_plays(order: Seq<Seq<usize>>, p: int) -> bool {
    exists|s: int, k: int|
        0 <= s < order.len() && 0 <= k < order[s].len() && (#[trigger] order[s][k]) as int == p
}

/// The canonical unit of a resolved cell: its track effects are made
/// canonical where the order plays its pattern; a cell of a pattern that is
/// never played has none.
pub open spec fn spec_finish_unit(unit: TrackImportUnitView, played: bool) -> TrackUnitView {
    TrackUnitView {
        effects: if played {
            spec_to_track_effects(unit.effects)
        } else {
            Seq::empty()
        },
        ..unit.prepared()
    }
}

/// The canonical units of the resolved cells of a row.
pub open spec fn spec_finish_row(row: Seq<TrackImportUnitView>, played: bool) -> Seq<TrackUnitView> {
    row.map_values(|u: TrackImportUnitView| spec_finish_unit(u, played))
}

/// The canonical units of the resolved cells of a pattern.
pub open spec fn spec_finish_pattern(pattern: Seq<Seq<TrackImportUnitView>>, played: bool) -> Seq<
    Seq<TrackUnitView>,
> {
    pattern.map_values(|r: Seq<TrackImportUnitView>| spec_finish_row(r, played))
}

/// The canonical patterns of raw patterns: every cell decoded by the format,
/// resolved against the memory along the order, and made canonical.
pub open spec fn spec_unpack_patterns(
    bank: MemoryBank,
    freq_type: FrequencyType,
    mem: MemoryType,
    order: Seq<Seq<usize>>,
    patterns: Seq<Seq<Seq<PatternSlot>>>,
) -> Seq<Seq<Seq<TrackUnitView>>> {
    let source = spec_apply_memory(bank, freq_type, mem, order, patterns).0;
    Seq::new(source.len(), |p: int| spec_finish_pattern(source[p], order_plays(order, p)))
}

/// Whether a song plays the pattern of index `p`.
pub open spec fn song_plays(song: Seq<usize>, p: int) -> bool {
    exists|k: int| 0 <= k < song.len() && (#[trigger] song[k]) as int == p
}

/// An order plays a pattern where one of its songs does.
pub proof fn lemma_order_plays(order: Seq<Seq<usize>>, p: int)
    ensures
        order_plays(order, p) == (exists|s: int|
            0 <= s < order.len() && song_plays(#[trigger] order[s], p)),
{
    if order_plays(order, p) {
        let (s, k) = choose|s: int, k: int|
            0 <= s < order.len() && 0 <= k < order[s].len() && (#[trigger] order[s][k]) as int
                == p;
        assert(song_plays(order[s], p));
    }
    if exists|s: int| 0 <= s < order.len() && song_plays(#[trigger] order[s], p) {
        let s = choose|s: int| 0 <= s < order.len() && song_plays(#[trigger] order[s], p);
        let k = choose|k: int| 0 <= k < order[s].len() && (#[trigger] order[s][k]) as int == p;
        assert(order[s][k] as int == p);
    }
}

/// The memory of the effects of an import run.
pub struct ImportMemory {
    global: Vec<MemorySlot>,
    channel: Vec<MemorySlot>,
}

impl View for ImportMemory {
    type V = MemoryBank;

    closed spec fn view(&self) -> MemoryBank {
        MemoryBank { global: self.global@, channel: self.channel@ }
    }
}

/// The scope of a track effect's memory in a format.
pub fn memory_scope(mem: &MemoryType, e: &TrackImportEffect) -> (r: MemoryScope)
    ensures
        r == spec_memory_scope(*mem, *e),
        match r {
            MemoryScope::Channel(s) => s < ARRAY_SIZE,
            _ => true,
        },
{
    match e {
        TrackImportEffect::Arpeggio(_, _) => match mem {
            MemoryType::Mod | MemoryType::Xm => MemoryScope::Unused,
            MemoryType::It => MemoryScope::Channel(ARPEGGIO),
            MemoryType::S3m => MemoryScope::Shared,
        },
        TrackImportEffect::Panbrello(_, _) => match mem {
            MemoryType::Mod => MemoryScope::Unused,
            _ => MemoryScope::Channel(PANBRELLO),
        },
        TrackImportEffect::ChannelPanningSlideN(_) => match mem {
            MemoryType::Mod => MemoryScope::Unused,
            _ => MemoryScope::Channel(PANNING_SLIDE),
        },
        TrackImportEffect::PortamentoUp(_) => match mem {
            MemoryType::Mod => MemoryScope::Unused,
            MemoryType::S3m => MemoryScope::Shared,
            _ => MemoryScope::Channel(PORTAMENTO_UP),
        },
        TrackImportEffect::PortamentoDown(_) => match mem {
            MemoryType::Mod => MemoryScope::Unused,
            MemoryType::S3m => MemoryScope::Shared,
            _ => MemoryScope::Channel(PORTAMENTO_DOWN),
        },
        TrackImportEffect::PortamentoFineUp(_) => match mem {
            MemoryType::Mod => MemoryScope::Unused,
            MemoryType::S3m => MemoryScope::Shared,
            _ => MemoryScope::Channel(PORTAMENTO_FINE_UP),
        },
        TrackImportEffect::PortamentoFineDown(_) => match mem {
            MemoryType::Mod => MemoryScope::Unused,
            MemoryType::S3m => MemoryScope::Shared,
            _ => MemoryScope::Channel(PORTAMENTO_FINE_DOWN),
        },
        TrackImportEffect::PortamentoExtraFineUp(_) => match mem {
            MemoryType::Mod => MemoryScope::Unused,
            MemoryType::S3m => MemoryScope::Shared,
            _ => MemoryScope::Channel(PORTAMENTO_FINE_EXTRA_UP),
        },
        TrackImportEffect::PortamentoExtraFineDown(_) => match mem {
            MemoryType::Mod => MemoryScope::Unused,
            MemoryType::S3m => MemoryScope::Shared,
            _ => MemoryScope::Channel(PORTAMENTO_FINE_EXTRA_DOWN),
        },
        TrackImportEffect::NoteRetrigExtended(_, _) => match mem {
            MemoryType::Mod => MemoryScope::Unused,
            MemoryType::S3m => MemoryScope::Shared,
            _ => MemoryScope::Channel(NOTE_RETRIG_EXTENDED),
        },
        TrackImportEffect::TonePortamento(_) => MemoryScope::Channel(TONE_PORTAMENTO),
        TrackImportEffect::Tremolo(_, _) => match mem {
            MemoryType::S3m => MemoryScope::Shared,
            _ => MemoryScope::Channel(TREMOLO),
        },
        TrackImportEffect::Tremor(_, _) => match mem {
            MemoryType::Mod => MemoryScope::Unused,
            MemoryType::S3m => MemoryScope::Shared,
            _ => MemoryScope::Channel(TREMOR),
        },
        TrackImportEffect::InstrumentSampleOffset(_) => MemoryScope::Channel(SAMPLE_OFFSET),
        TrackImportEffect::InstrumentSampleOffsetAddHigh(_) => match mem {
            MemoryType::It => MemoryScope::Channel(SAMPLE_OFFSET_ADD_HIGH),
            _ => MemoryScope::Unused,
        },
        TrackImportEffect::Vibrato(_, _) => MemoryScope::Channel(VIBRATO),
        TrackImportEffect::VibratoFine(_, _) => match mem {
            MemoryType::S3m => MemoryScope::Channel(VIBRATO_FINE),
            _ => MemoryScope::Unused,
        },
        TrackImportEffect::VolumeSlide0(_) => match mem {
            MemoryType::Mod => MemoryScope::Unused,
            MemoryType::S3m => MemoryScope::Shared,
            _ => MemoryScope::Channel(PITCH_VOLUME_SLIDE_0),
        },
        TrackImportEffect::VolumeSlideN(_) => match mem {
            MemoryType::Mod => MemoryScope::Unused,
            MemoryType::S3m => MemoryScope::Shared,
            _ => MemoryScope::Channel(PITCH_VOLUME_SLIDE_N),
        },
        TrackImportEffect::TonePortamentoFxVol(_) => match mem {
            MemoryType::Xm => MemoryScope::Channel(FX_VOLUME_TONE_PORTAMENTO),
            _ => MemoryScope::Unused,
        },
        TrackImportEffect::VibratoDepthFxVol(_) => match mem {
            MemoryType::Xm => MemoryScope::Channel(FX_VOLUME_VIBRATO_DEPTH),
            _ => MemoryScope::Unused,
        },
        TrackImportEffect::ChannelVolumeSlide0(_) | TrackImportEffect::ChannelVolumeSlideN(_) => {
            match mem {
                MemoryType::Mod => MemoryScope::Unused,
                _ => MemoryScope::Channel(CHANNEL_VOLUME_SLIDE),
            }
        },
        _ => MemoryScope::Unused,
    }
}

/// An amount after it has met its memory.
fn picked_amount(stored: Amount, given: Amount) -> (r: Amount)
    ensures
        r == pick_amount(stored, given),
{
    if given.is_zero() {
        stored
    } else {
        given
    }
}

/// A count after it has met its memory.
fn picked_count(stored: usize, given: usize) -> (r: usize)
    ensures
        r == pick_count(stored, given),
{
    if given == 0 {
        stored
    } else {
        given
    }
}

/// An effect and a slot after the effect has met the slot.
fn resolve_in_slot(stored: MemorySlot, e: TrackImportEffect) -> (r: (TrackImportEffect, MemorySlot))
    ensures
        r.1 == pick_slot(stored, spec_params(e), spec_uses(e)),
        r.0 == spec_with_params(e, r.1),
{
    match e {
        TrackImportEffect::Arpeggio(a, b) => {
            let n0 = picked_count(stored.n0, a);
            let n1 = picked_count(stored.n1, b);
            (TrackImportEffect::Arpeggio(n0, n1), MemorySlot { n0, n1, ..stored })
        },
        TrackImportEffect::NoteRetrigExtended(a, b) => {
            let n0 = picked_count(stored.n0, a);
            let n1 = picked_count(stored.n1, b);
            (TrackImportEffect::NoteRetrigExtended(n0, n1), MemorySlot { n0, n1, ..stored })
        },
        TrackImportEffect::Tremor(a, b) => {
            let n0 = picked_count(stored.n0, a);
            let n1 = picked_count(stored.n1, b);
            (TrackImportEffect::Tremor(n0, n1), MemorySlot { n0, n1, ..stored })
        },
        TrackImportEffect::InstrumentSampleOffset(a) => {
            let n0 = picked_count(stored.n0, a);
            (TrackImportEffect::InstrumentSampleOffset(n0), MemorySlot { n0, ..stored })
        },
        TrackImportEffect::InstrumentSampleOffsetAddHigh(a) => {
            let n0 = picked_count(stored.n0, a);
            (TrackImportEffect::InstrumentSampleOffsetAddHigh(n0), MemorySlot { n0, ..stored })
        },
        TrackImportEffect::Panbrello(a, b) => {
            let a0 = picked_amount(stored.a0, a);
            let a1 = picked_amount(stored.a1, b);
            (TrackImportEffect::Panbrello(a0, a1), MemorySlot { a0, a1, ..stored })
        },
        TrackImportEffect::Tremolo(a, b) => {
            let a0 = picked_amount(stored.a0, a);
            let a1 = picked_amount(stored.a1, b);
            (TrackImportEffect::Tremolo(a0, a1), MemorySlot { a0, a1, ..stored })
        },
        TrackImportEffect::Vibrato(a, b) => {
            let a0 = picked_amount(stored.a0, a);
            let a1 = picked_amount(stored.a1, b);
            (TrackImportEffect::Vibrato(a0, a1), MemorySlot { a0, a1, ..stored })
        },
        TrackImportEffect::VibratoFine(a, b) => {
            let a0 = picked_amount(stored.a0, a);
            let a1 = picked_amount(stored.a1, b);
            (TrackImportEffect::VibratoFine(a0, a1), MemorySlot { a0, a1, ..stored })
        },
        TrackImportEffect::ChannelPanningSlideN(a) => {
            let a0 = picked_amount(stored.a0, a);
            (TrackImportEffect::ChannelPanningSlideN(a0), MemorySlot { a0, ..stored })
        },
        TrackImportEffect::PortamentoUp(a) => {
            let a0 = picked_amount(stored.a0, a);
            (TrackImportEffect::PortamentoUp(a0), MemorySlot { a0, ..stored })
        },
        TrackImportEffect::PortamentoDown(a) => {
            let a0 = picked_amount(stored.a0, a);
            (TrackImportEffect::PortamentoDown(a0), MemorySlot { a0, ..stored })
        },
        TrackImportEffect::PortamentoFineUp(a) => {
            let a0 = picked_amount(stored.a0, a);
            (TrackImportEffect::PortamentoFineUp(a0), MemorySlot { a0, ..stored })
        },
        TrackImportEffect::PortamentoFineDown(a) => {
            let a0 = picked_amount(stored.a0, a);
            (TrackImportEffect::PortamentoFineDown(a0), MemorySlot { a0, ..stored })
        },
        TrackImportEffect::PortamentoExtraFineUp(a) => {
            let a0 = picked_amount(stored.a0, a);
            (TrackImportEffect::PortamentoExtraFineUp(a0), MemorySlot { a0, ..stored })
        },
        TrackImportEffect::PortamentoExtraFineDown(a) => {
            let a0 = picked_amount(stored.a0, a);
            (TrackImportEffect::PortamentoExtraFineDown(a0), MemorySlot { a0, ..stored })
        },
        TrackImportEffect::TonePortamento(a) => {
            let a0 = picked_amount(stored.a0, a);
            (TrackImportEffect::TonePortamento(a0), MemorySlot { a0, ..stored })
        },
        TrackImportEffect::TonePortamentoFxVol(a) => {
            let a0 = picked_amount(stored.a0, a);
            (TrackImportEffect::TonePortamentoFxVol(a0), MemorySlot { a0, ..stored })
        },
        TrackImportEffect::VibratoDepthFxVol(a) => {
            let a0 = picked_amount(stored.a0, a);
            (TrackImportEffect::VibratoDepthFxVol(a0), MemorySlot { a0, ..stored })
        },
        TrackImportEffect::VolumeSlide0(a) => {
            let a0 = picked_amount(stored.a0, a);
            (TrackImportEffect::VolumeSlide0(a0), MemorySlot { a0, ..stored })
        },
        TrackImportEffect::VolumeSlideN(a) => {
            let a0 = picked_amount(stored.a0, a);
            (TrackImportEffect::VolumeSlideN(a0), MemorySlot { a0, ..stored })
        },
        TrackImportEffect::ChannelVolumeSlide0(a) => {
            let a0 = picked_amount(stored.a0, a);
            (TrackImportEffect::ChannelVolumeSlide0(a0), MemorySlot { a0, ..stored })
        },
        TrackImportEffect::ChannelVolumeSlideN(a) => {
            let a0 = picked_amount(stored.a0, a);
            (TrackImportEffect::ChannelVolumeSlideN(a0), MemorySlot { a0, ..stored })
        },
        _ => (e, stored),
    }
}

impl ImportMemory {
    /// A memory that remembers nothing.
    pub fn default() -> (r: ImportMemory)
        ensures
            r@ == MemoryBank::fresh(),
            r@.well_formed(),
    {
        let zero = MemorySlot { a0: Amount::zero(), a1: Amount::zero(), n0: 0, n1: 0 };
        let mut global: Vec<MemorySlot> = Vec::new();
        let mut i: usize = 0;
        while i < CHANNELS
            invariant
                0 <= i <= CHANNELS,
                zero == MemorySlot::zero(),
                global@.len() == i,
                forall|k: int| 0 <= k < i ==> global@[k] == MemorySlot::zero(),
            decreases CHANNELS - i,
        {
            global.push(zero);
            i += 1;
        }
        let mut channel: Vec<MemorySlot> = Vec::new();
        let mut j: usize = 0;
        while j < CHANNELS * ARRAY_SIZE
            invariant
                0 <= j <= CHANNELS * ARRAY_SIZE,
                zero == MemorySlot::zero(),
                channel@.len() == j,
                forall|k: int| 0 <= k < j ==> channel@[k] == MemorySlot::zero(),
            decreases CHANNELS * ARRAY_SIZE - j,
        {
            channel.push(zero);
            j += 1;
        }
        let r = ImportMemory { global, channel };
        assert(r@.global =~= MemoryBank::fresh().global);
        assert(r@.channel =~= MemoryBank::fresh().channel);
        r
    }

    fn load_slot(&self, index: usize, scope: MemoryScope) -> (r: MemorySlot)
        requires
            self@.well_formed(),
            index < CHANNELS,
            match scope {
                MemoryScope::Channel(s) => s < ARRAY_SIZE,
                _ => true,
            },
        ensures
            r == self@.slot(index as int, scope),
    {
        match scope {
            MemoryScope::Unused => MemorySlot {
                a0: Amount::zero(),
                a1: Amount::zero(),
                n0: 0,
                n1: 0,
            },
            MemoryScope::Channel(s) => self.channel[index * ARRAY_SIZE + s],
            MemoryScope::Shared => self.global[index],
        }
    }

    fn store_slot(&mut self, index: usize, scope: MemoryScope, slot: MemorySlot)
        requires
            old(self)@.well_formed(),
            index < CHANNELS,
            match scope {
                MemoryScope::Channel(s) => s < ARRAY_SIZE,
                _ => true,
            },
        ensures
            final(self)@ == old(self)@.with_slot(index as int, scope, slot),
            final(self)@.well_formed(),
    {
        match scope {
            MemoryScope::Unused => {},
            MemoryScope::Channel(s) => {
                self.channel.set(index * ARRAY_SIZE + s, slot);
            },
            MemoryScope::Shared => {
                self.global.set(index, slot);
            },
        }
    }

    fn resolve_effect(&mut self, mem: &MemoryType, index: usize, e: TrackImportEffect) -> (r:
        TrackImportEffect)
        requires
            old(self)@.well_formed(),
            index < CHANNELS,
        ensures
            (r, final(self)@) == spec_resolve_effect(old(self)@, *mem, index as int, e),
            final(self)@.well_formed(),
    {
        let scope = memory_scope(mem, &e);
        match scope {
            MemoryScope::Unused => e,
            _ => {
                let stored = self.load_slot(index, scope);
                match e {
                    TrackImportEffect::InstrumentSampleOffset(a) => {
                        if a == 0 {
                            let high = self.load_slot(
                                index,
                                MemoryScope::Channel(SAMPLE_OFFSET_ADD_HIGH),
                            );
                            TrackImportEffect::InstrumentSampleOffset(
                                stored.n0.saturating_add(high.n0),
                            )
                        } else {
                            self.store_slot(index, scope, MemorySlot { n0: a, ..stored });
                            e
                        }
                    },
                    TrackImportEffect::InstrumentSampleOffsetAddHigh(a) => {
                        self.store_slot(index, scope, MemorySlot { n0: a, ..stored });
                        e
                    },
                    _ => {
                        let (resolved, now) = resolve_in_slot(stored, e);
                        self.store_slot(index, scope, now);
                        resolved
                    },
                }
            },
        }
    }

    fn resolve_global_effect(&mut self, mem: &MemoryType, index: usize, g: GlobalEffect) -> (r:
        GlobalEffect)
        requires
            old(self)@.well_formed(),
            index < CHANNELS,
        ensures
            (r, final(self)@) == spec_resolve_global_effect(old(self)@, *mem, index as int, g),
            final(self)@.well_formed(),
    {
        match mem {
            MemoryType::Mod => g,
            _ => {
                match g {
                    GlobalEffect::BpmSlide(a) => {
                        let scope = MemoryScope::Channel(
                            if a < 0 {
                                TEMPO_DOWN
                            } else {
                                TEMPO_UP
                            },
                        );
                        let stored = self.load_slot(index, scope);
                        if a == 0 {
                            GlobalEffect::BpmSlide(#[verifier::truncate] (stored.n0 as isize))
                        } else {
                            self.store_slot(
                                index,
                                scope,
                                MemorySlot { n0: #[verifier::truncate] (a as usize), ..stored },
                            );
                            g
                        }
                    },
                    GlobalEffect::VolumeSlide { speed, fine } => {
                        let scope = MemoryScope::Channel(CHANNEL_VOLUME_SLIDE);
                        let stored = self.load_slot(index, scope);
                        let a0 = picked_amount(stored.a0, speed);
                        self.store_slot(index, scope, MemorySlot { a0, ..stored });
                        GlobalEffect::VolumeSlide { speed: a0, fine }
                    },
                    _ => g,
                }
            },
        }
    }

    /// The cell `tiu` of channel `index` after it has met the memory.
    fn resolved_unit(&mut self, mem: &MemoryType, index: usize, tiu: &TrackImportUnit) -> (r:
        TrackImportUnit)
        requires
            old(self)@.well_formed(),
            index < CHANNELS,
        ensures
            (r@, final(self)@) == spec_update_memory(old(self)@, *mem, index as int, tiu@),
            final(self)@.well_formed(),
    {
        let mut effects: Vec<TrackImportEffect> = Vec::new();
        let mut i: usize = 0;
        while i < tiu.effects.len()
            invariant
                0 <= i <= tiu.effects.len(),
                index < CHANNELS,
                self@.well_formed(),
                (effects@, self@) == spec_resolve_effects(
                    old(self)@,
                    *mem,
                    index as int,
                    tiu.effects@.take(i as int),
                ),
            decreases tiu.effects.len() - i,
        {
            proof {
                assert(tiu.effects@.take(i + 1).drop_last() == tiu.effects@.take(i as int));
            }
            let e = self.resolve_effect(mem, index, tiu.effects[i]);
            effects.push(e);
            i += 1;
        }
        proof {
            assert(tiu.effects@.take(tiu.effects.len() as int) == tiu.effects@);
        }
        let ghost middle = self@;
        let mut global_effects: Vec<GlobalEffect> = Vec::new();
        let mut j: usize = 0;
        while j < tiu.global_effects.len()
            invariant
                0 <= j <= tiu.global_effects.len(),
                index < CHANNELS,
                self@.well_formed(),
                (global_effects@, self@) == spec_resolve_global_effects(
                    middle,
                    *mem,
                    index as int,
                    tiu.global_effects@.take(j as int),
                ),
            decreases tiu.global_effects.len() - j,
        {
            proof {
                assert(tiu.global_effects@.take(j + 1).drop_last() == tiu.global_effects@.take(
                    j as int,
                ));
            }
            let g = self.resolve_global_effect(mem, index, tiu.global_effects[j]);
            global_effects.push(g);
            j += 1;
        }
        proof {
            assert(tiu.global_effects@.take(tiu.global_effects.len() as int)
                == tiu.global_effects@);
        }
        TrackImportUnit {
            note: tiu.note,
            velocity: tiu.velocity,
            instrument: tiu.instrument,
            effects,
            global_effects,
        }
    }

    /// Lets the cell `tiu` of channel `index` meet the memory: zeros are
    /// replaced by what is remembered, other values are remembered.
    pub fn update_memory(&mut self, mem: &MemoryType, index: usize, tiu: &mut TrackImportUnit)
        requires
            old(self)@.well_formed(),
            index < CHANNELS,
        ensures
            (final(tiu)@, final(self)@) == spec_update_memory(
                old(self)@,
                *mem,
                index as int,
                old(tiu)@,
            ),
            final(self)@.well_formed(),
    {
        let resolved = self.resolved_unit(mem, index, tiu);
        *tiu = resolved;
    }

    fn resolve_row(&mut self, mem: &MemoryType, row: &Vec<TrackImportUnit>) -> (r: Vec<
        TrackImportUnit,
    >)
        requires
            old(self)@.well_formed(),
            row@.len() <= CHANNELS,
        ensures
            (r.deep_view(), final(self)@) == spec_resolve_row(old(self)@, *mem, row.deep_view()),
            final(self)@.well_formed(),
            r@.len() == row@.len(),
    {
        let mut out: Vec<TrackImportUnit> = Vec::new();
        let mut i: usize = 0;
        while i < row.len()
            invariant
                0 <= i <= row.len(),
                row@.len() <= CHANNELS,
                self@.well_formed(),
                out@.len() == i,
                (out.deep_view(), self@) == spec_resolve_row(
                    old(self)@,
                    *mem,
                    row.deep_view().take(i as int),
                ),
            decreases row.len() - i,
        {
            let ghost before = out.deep_view();
            let unit = self.resolved_unit(mem, i, &row[i]);
            out.push(unit);
            proof {
                let now = row.deep_view().take(i + 1);
                assert(now.drop_last() =~= row.deep_view().take(i as int));
                assert(now.last() == row@[i as int]@);
                assert(out.deep_view() =~= before.push(unit@));
            }
            i += 1;
        }
        proof {
            assert(row.deep_view().take(row.len() as int) =~= row.deep_view());
        }
        out
    }

    fn resolve_pattern(&mut self, mem: &MemoryType, pattern: &Vec<Vec<TrackImportUnit>>) -> (r:
        Vec<Vec<TrackImportUnit>>)
        requires
            old(self)@.well_formed(),
            rows_fit(pattern.deep_view()),
        ensures
            (r.deep_view(), final(self)@) == spec_resolve_pattern(
                old(self)@,
                *mem,
                pattern.deep_view(),
            ),
            final(self)@.well_formed(),
            rows_fit(r.deep_view()),
    {
        let mut out: Vec<Vec<TrackImportUnit>> = Vec::new();
        let mut i: usize = 0;
        while i < pattern.len()
            invariant
                0 <= i <= pattern.len(),
                rows_fit(pattern.deep_view()),
                self@.well_formed(),
                out@.len() == i,
                rows_fit(out.deep_view()),
                (out.deep_view(), self@) == spec_resolve_pattern(
                    old(self)@,
                    *mem,
                    pattern.deep_view().take(i as int),
                ),
            decreases pattern.len() - i,
        {
            let ghost before = out.deep_view();
            proof {
                assert(pattern.deep_view()[i as int].len() <= CHANNELS);
                assert(pattern.deep_view()[i as int].len() == pattern@[i as int]@.len());
            }
            let row = self.resolve_row(mem, &pattern[i]);
            out.push(row);
            proof {
                let now = pattern.deep_view().take(i + 1);
                assert(now.drop_last() =~= pattern.deep_view().take(i as int));
                assert(now.last() == pattern@[i as int].deep_view());
                assert(out.deep_view() =~= before.push(row.deep_view()));
                assert(row.deep_view().len() == row@.len());
            }
            i += 1;
        }
        proof {
            assert(pattern.deep_view().take(pattern.len() as int) =~= pattern.deep_view());
        }
        out
    }

    fn unpack_pattern(freq_type: FrequencyType, mem: &MemoryType, pattern: &Vec<Vec<PatternSlot>>) -> (r:
        Vec<Vec<TrackImportUnit>>)
        ensures
            r.deep_view() == spec_unpack_pattern(freq_type, *mem, pattern.deep_view()),
    {
        match mem {
            MemoryType::It => ItEffect::it_unpack_pattern(freq_type, pattern),
            _ => ModXmEffect::mod_xm_unpack_pattern(freq_type, pattern),
        }
    }

    fn replay_song(
        &mut self,
        mem: &MemoryType,
        song: &Vec<usize>,
        source: &mut Vec<Vec<Vec<TrackImportUnit>>>,
    )
        requires
            old(self)@.well_formed(),
            patterns_fit(old(source).deep_view()),
        ensures
            (final(source).deep_view(), final(self)@) == spec_replay_song(
                old(self)@,
                *mem,
                song@,
                old(source).deep_view(),
            ),
            final(self)@.well_formed(),
            patterns_fit(final(source).deep_view()),
    {
        let mut k: usize = 0;
        while k < song.len()
            invariant
                0 <= k <= song.len(),
                self@.well_formed(),
                patterns_fit(source.deep_view()),
                (source.deep_view(), self@) == spec_replay_song(
                    old(self)@,
                    *mem,
                    song@.take(k as int),
                    old(source).deep_view(),
                ),
            decreases song.len() - k,
        {
            let o = song[k];
            proof {
                assert(song@.take(k + 1).drop_last() =~= song@.take(k as int));
                assert(source.deep_view().len() == source@.len());
            }
            if o < source.len() {
                let ghost before = source.deep_view();
                proof {
                    assert(rows_fit(before[o as int]));
                    assert(before[o as int] == source@[o as int].deep_view());
                }
                let visited = self.resolve_pattern(mem, &source[o]);
                source.set(o, visited);
                proof {
                    assert(source.deep_view() =~= before.update(o as int, visited.deep_view()));
                    assert forall|p: int| 0 <= p < source.deep_view().len() implies rows_fit(
                        #[trigger] source.deep_view()[p],
                    ) by {
                        if p != o {
                            assert(source.deep_view()[p] == before[p]);
                        }
                    }
                }
            }
            k += 1;
        }
        proof {
            assert(song@.take(song.len() as int) =~= song@);
        }
    }

    fn apply_memory(
        &mut self,
        freq_type: FrequencyType,
        mem: MemoryType,
        order: &Vec<Vec<usize>>,
        patterns: &Vec<Vec<Vec<PatternSlot>>>,
    ) -> (r: Vec<Vec<Vec<TrackImportUnit>>>)
        requires
            old(self)@.well_formed(),
            patterns_fit(patterns.deep_view()),
        ensures
            (r.deep_view(), final(self)@) == spec_apply_memory(
                old(self)@,
                freq_type,
                mem,
                order.deep_view(),
                patterns.deep_view(),
            ),
            final(self)@.well_formed(),
    {
        let mut source: Vec<Vec<Vec<TrackImportUnit>>> = Vec::new();
        let mut i: usize = 0;
        while i < patterns.len()
            invariant
                0 <= i <= patterns.len(),
                patterns_fit(patterns.deep_view()),
                source@.len() == i,
                forall|k: int|
                    0 <= k < i ==> (#[trigger] source@[k]).deep_view() == spec_unpack_pattern(
                        freq_type,
                        mem,
                        patterns@[k].deep_view(),
                    ),
            decreases patterns.len() - i,
        {
            source.push(Self::unpack_pattern(freq_type, &mem, &patterns[i]));
            i += 1;
        }
        let ghost start = patterns.deep_view().map_values(
            |p: Seq<Seq<PatternSlot>>| spec_unpack_pattern(freq_type, mem, p),
        );
        proof {
            assert(source.deep_view() =~= start);
            assert forall|p: int| 0 <= p < start.len() implies rows_fit(#[trigger] start[p]) by {
                let raw = patterns.deep_view()[p];
                assert(rows_fit(raw));
                assert forall|r: int| 0 <= r < start[p].len() implies (#[trigger] start[p][r]).len()
                    <= CHANNELS by {
                    assert(raw[r].len() <= CHANNELS);
                }
            }
        }
        let mut s: usize = 0;
        while s < order.len()
            invariant
                0 <= s <= order.len(),
                self@.well_formed(),
                patterns_fit(source.deep_view()),
                (source.deep_view(), self@) == spec_replay(
                    old(self)@,
                    mem,
                    order.deep_view().take(s as int),
                    start,
                ),
            decreases order.len() - s,
        {
            proof {
                assert(order.deep_view().take(s + 1).drop_last() =~= order.deep_view().take(
                    s as int,
                ));
                assert(order.deep_view().take(s + 1).last() =~= order@[s as int]@);
            }
            self.replay_song(&mem, &order[s], &mut source);
            s += 1;
        }
        proof {
            assert(order.deep_view().take(order.len() as int) =~= order.deep_view());
        }
        source
    }

    fn mark_song(song: &Vec<usize>, flags: &mut Vec<bool>)
        ensures
            final(flags)@.len() == old(flags)@.len(),
            forall|p: int|
                0 <= p < old(flags)@.len() ==> (#[trigger] final(flags)@[p]) == (old(flags)@[p]
                    || song_plays(song@, p)),
    {
        let mut k: usize = 0;
        while k < song.len()
            invariant
                0 <= k <= song.len(),
                flags@.len() == old(flags)@.len(),
                forall|p: int|
                    0 <= p < flags@.len() ==> (#[trigger] flags@[p]) == (old(flags)@[p]
                        || song_plays(song@.take(k as int), p)),
            decreases song.len() - k,
        {
            let o = song[k];
            let ghost before = flags@;
            if o < flags.len() {
                flags.set(o, true);
            }
            proof {
                let now = song@.take(k + 1);
                let was = song@.take(k as int);
                assert forall|p: int| 0 <= p < flags@.len() implies (#[trigger] flags@[p]) == (old(
                    flags,
                )@[p] || song_plays(now, p)) by {
                    if song_plays(was, p) {
                        let w = choose|w: int| 0 <= w < was.len() && (#[trigger] was[w]) as int == p;
                        assert(now[w] as int == p);
                    }
                    if p == o {
                        assert(now[k as int] as int == p);
                    }
                    if song_plays(now, p) {
                        let w = choose|w: int| 0 <= w < now.len() && (#[trigger] now[w]) as int == p;
                        if w < k {
                            assert(was[w] as int == p);
                        }
                    }
                }
            }
            k += 1;
        }
        proof {
            assert(song@.take(song.len() as int) =~= song@);
        }
    }

    fn played_flags(order: &Vec<Vec<usize>>, n: usize) -> (r: Vec<bool>)
        ensures
            r@.len() == n,
            forall|p: int| 0 <= p < n ==> (#[trigger] r@[p]) == order_plays(order.deep_view(), p),
    {
        let mut flags: Vec<bool> = Vec::new();
        let mut i: usize = 0;
        while i < n
            invariant
                0 <= i <= n,
                flags@.len() == i,
                forall|p: int| 0 <= p < i ==> !(#[trigger] flags@[p]),
            decreases n - i,
        {
            flags.push(false);
            i += 1;
        }
        let mut s: usize = 0;
        while s < order.len()
            invariant
                0 <= s <= order.len(),
                flags@.len() == n,
                forall|p: int|
                    0 <= p < n ==> (#[trigger] flags@[p]) == order_plays(
                        order.deep_view().take(s as int),
                        p,
                    ),
            decreases order.len() - s,
        {
            let ghost before = flags@;
            Self::mark_song(&order[s], &mut flags);
            proof {
                let now = order.deep_view().take(s + 1);
                let was = order.deep_view().take(s as int);
                assert(now[s as int] =~= order@[s as int]@);
                assert forall|p: int| 0 <= p < n implies (#[trigger] flags@[p]) == order_plays(
                    now,
                    p,
                ) by {
                    lemma_order_plays(now, p);
                    lemma_order_plays(was, p);
                    if order_plays(was, p) {
                        let w = choose|w: int| 0 <= w < was.len() && song_plays(#[trigger] was[w], p);
                        assert(now[w] == was[w]);
                        assert(song_plays(now[w], p));
                    }
                    if song_plays(order@[s as int]@, p) {
                        assert(song_plays(now[s as int], p));
                    }
                    if order_plays(now, p) {
                        let w = choose|w: int| 0 <= w < now.len() && song_plays(#[trigger] now[w], p);
                        if w < s {
                            assert(was[w] == now[w]);
                            assert(song_plays(was[w], p));
                        }
                    }
                }
            }
            s += 1;
        }
        proof {
            assert(order.deep_view().take(order.len() as int) =~= order.deep_view());
        }
        flags
    }

    fn finish_unit(unit: &TrackImportUnit, played: bool) -> (r: TrackUnit)
        ensures
            r@ == spec_finish_unit(unit@, played),
    {
        let mut tu = unit.prepare_track_unit();
        if played {
            tu.effects = TrackImportEffect::to_track_effects(&unit.effects);
        }
        tu
    }

    fn finish_row(row: &Vec<TrackImportUnit>, played: bool) -> (r: Vec<TrackUnit>)
        ensures
            r.deep_view() == spec_finish_row(row.deep_view(), played),
    {
        let mut out: Vec<TrackUnit> = Vec::new();
        let mut i: usize = 0;
        while i < row.len()
            invariant
                0 <= i <= row.len(),
                out@.len() == i,
                forall|k: int|
                    0 <= k < i ==> (#[trigger] out@[k])@ == spec_finish_unit(row@[k]@, played),
            decreases row.len() - i,
        {
            out.push(Self::finish_unit(&row[i], played));
            i += 1;
        }
        assert(out.deep_view() =~= spec_finish_row(row.deep_view(), played));
        out
    }

    fn finish_pattern(pattern: &Vec<Vec<TrackImportUnit>>, played: bool) -> (r: Vec<Vec<TrackUnit>>)
        ensures
            r.deep_view() == spec_finish_pattern(pattern.deep_view(), played),
    {
        let mut out: Vec<Vec<TrackUnit>> = Vec::new();
        let mut i: usize = 0;
        while i < pattern.len()
            invariant
                0 <= i <= pattern.len(),
                out@.len() == i,
                forall|k: int|
                    0 <= k < i ==> (#[trigger] out@[k]).deep_view() == spec_finish_row(
                        pattern@[k].deep_view(),
                        played,
                    ),
            decreases pattern.len() - i,
        {
            out.push(Self::finish_row(&pattern[i], played));
            i += 1;
        }
        assert(out.deep_view() =~= spec_finish_pattern(pattern.deep_view(), played));
        out
    }

    /// Decodes raw patterns into canonical ones: every cell is read by the
    /// decoder of the format, effect memory is resolved along the order, and
    /// the effects of every cell are made canonical. No row may have more
    /// than 64 cells.
    pub fn unpack_patterns(
        &mut self,
        freq_type: FrequencyType,
        mem: MemoryType,
        order: &Vec<Vec<usize>>,
        patterns: &Vec<Vec<Vec<PatternSlot>>>,
    ) -> (r: Vec<Vec<Vec<TrackUnit>>>)
        requires
            old(self)@.well_formed(),
            patterns_fit(patterns.deep_view()),
        ensures
            r.deep_view() == spec_unpack_patterns(
                old(self)@,
                freq_type,
                mem,
                order.deep_view(),
                patterns.deep_view(),
            ),
            final(self)@ == spec_apply_memory(
                old(self)@,
                freq_type,
                mem,
                order.deep_view(),
                patterns.deep_view(),
            ).1,
            final(self)@.well_formed(),
    {
        let source = self.apply_memory(freq_type, mem, order, patterns);
        let played = Self::played_flags(order, source.len());
        let mut dest: Vec<Vec<Vec<TrackUnit>>> = Vec::new();
        let mut p: usize = 0;
        while p < source.len()
            invariant
                0 <= p <= source.len(),
                played@.len() == source@.len(),
                forall|q: int|
                    0 <= q < source@.len() ==> (#[trigger] played@[q]) == order_plays(
                        order.deep_view(),
                        q,
                    ),
                dest@.len() == p,
                forall|q: int|
                    0 <= q < p ==> (#[trigger] dest@[q]).deep_view() == spec_finish_pattern(
                        source@[q].deep_view(),
                        order_plays(order.deep_view(), q),
                    ),
            decreases source.len() - p,
        {
            dest.push(Self::finish_pattern(&source[p], played[p]));
            p += 1;
        }
        assert(dest.deep_view() =~= spec_unpack_patterns(
            old(self)@,
            freq_type,
            mem,
            order.deep_view(),
            patterns.deep_view(),
        ));
        dest
    }
}

} // verus!
