//! What holds of effect memory whatever the patterns are.

use crate::effect::{saturating_sum, GlobalEffect};
use crate::import_memory::{
    spec_memory_scope, spec_params, spec_replay, spec_replay_song, spec_resolve_effect,
    spec_resolve_effects, spec_resolve_global_effect, spec_resolve_global_effects,
    spec_resolve_pattern, spec_resolve_row, spec_update_memory, spec_uses, spec_with_params,
    MemoryBank, MemoryScope, MemorySlot, MemoryType, ARRAY_SIZE, CHANNELS, SAMPLE_OFFSET,
    SAMPLE_OFFSET_ADD_HIGH,
};
use crate::track_import_effect::TrackImportEffect;
use crate::track_import_unit::TrackImportUnitView;
use vstd::prelude::*;

verus! {

/// Whether every parameter of the effect that takes part in effect memory
/// is other than 0.
pub open spec fn effect_is_set(e: TrackImportEffect) -> bool {
    let u = spec_uses(e);
    let p = spec_params(e);
    (u.0 ==> p.a0.raw != 0) && (u.1 ==> p.a1.raw != 0) && (u.2 ==> p.n0 != 0) && (u.3 ==> p.n1
        != 0)
}

/// Whether the parameter of the global effect that takes part in effect
/// memory, if it has one, is other than 0.
pub open spec fn global_is_set(g: GlobalEffect) -> bool {
    match g {
        GlobalEffect::BpmSlide(a) => a != 0,
        GlobalEffect::VolumeSlide { speed, fine } => speed.raw != 0,
        _ => true,
    }
}

/// Whether all effects of the cell are set.
pub open spec fn unit_is_set(unit: TrackImportUnitView) -> bool {
    &&& forall|i: int| 0 <= i < unit.effects.len() ==> effect_is_set(#[trigger] unit.effects[i])
    &&& forall|j: int|
        0 <= j < unit.global_effects.len() ==> global_is_set(#[trigger] unit.global_effects[j])
}

/// Whether all effects of all cells of the row are set.
pub open spec fn row_is_set(row: Seq<TrackImportUnitView>) -> bool {
    forall|c: int| 0 <= c < row.len() ==> unit_is_set(#[trigger] row[c])
}

/// Whether all effects of all cells of the pattern are set.
pub open spec fn pattern_is_set(pattern: Seq<Seq<TrackImportUnitView>>) -> bool {
    forall|r: int| 0 <= r < pattern.len() ==> row_is_set(#[trigger] pattern[r])
}

/// Whether all effects of all cells of all patterns are set.
pub open spec fn patterns_are_set(patterns: Seq<Seq<Seq<TrackImportUnitView>>>) -> bool {
    forall|p: int| 0 <= p < patterns.len() ==> pattern_is_set(#[trigger] patterns[p])
}

/// The effect with each parameter that takes part in effect memory at 0.
pub open spec fn zeroed(e: TrackImportEffect) -> TrackImportEffect {
    spec_with_params(e, MemorySlot::zero())
}

/// Whether the effect has memory in the format and keeps it by the common
/// rule; the sample offset and its high part have rules of their own.
pub open spec fn has_plain_memory(mem: MemoryType, e: TrackImportEffect) -> bool {
    spec_memory_scope(mem, e) != MemoryScope::Unused && !(e is InstrumentSampleOffset) && !(e is InstrumentSampleOffsetAddHigh)
}

/// An effect whose parameters are set passes the memory unchanged.
pub proof fn lemma_set_effect_unchanged(
    bank: MemoryBank,
    mem: MemoryType,
    index: int,
    e: TrackImportEffect,
)
    requires
        effect_is_set(e),
    ensures
        spec_resolve_effect(bank, mem, index, e).0 == e,
{
}

/// A global effect whose parameter is set passes the memory unchanged.
pub proof fn lemma_set_global_unchanged(
    bank: MemoryBank,
    mem: MemoryType,
    index: int,
    g: GlobalEffect,
)
    requires
        global_is_set(g),
    ensures
        spec_resolve_global_effect(bank, mem, index, g).0 == g,
{
}

/// Effects whose parameters are all set pass the memory unchanged.
pub proof fn lemma_set_effects_unchanged(
    bank: MemoryBank,
    mem: MemoryType,
    index: int,
    effects: Seq<TrackImportEffect>,
)
    requires
        forall|i: int| 0 <= i < effects.len() ==> effect_is_set(#[trigger] effects[i]),
    ensures
        spec_resolve_effects(bank, mem, index, effects).0 == effects,
    decreases effects.len(),
{
    if effects.len() > 0 {
        let front = effects.drop_last();
        assert forall|i: int| 0 <= i < front.len() implies effect_is_set(#[trigger] front[i]) by {
            assert(front[i] == effects[i]);
        }
        lemma_set_effects_unchanged(bank, mem, index, front);
        let before = spec_resolve_effects(bank, mem, index, front);
        assert(effect_is_set(effects[effects.len() - 1]));
        lemma_set_effect_unchanged(before.1, mem, index, effects.last());
        assert(front.push(effects.last()) =~= effects);
    } else {
        assert(effects =~= Seq::empty());
    }
}

/// Global effects whose parameters are all set pass the memory unchanged.
pub proof fn lemma_set_globals_unchanged(
    bank: MemoryBank,
    mem: MemoryType,
    index: int,
    effects: Seq<GlobalEffect>,
)
    requires
        forall|i: int| 0 <= i < effects.len() ==> global_is_set(#[trigger] effects[i]),
    ensures
        spec_resolve_global_effects(bank, mem, index, effects).0 == effects,
    decreases effects.len(),
{
    if effects.len() > 0 {
        let front = effects.drop_last();
        assert forall|i: int| 0 <= i < front.len() implies global_is_set(#[trigger] front[i]) by {
            assert(front[i] == effects[i]);
        }
        lemma_set_globals_unchanged(bank, mem, index, front);
        let before = spec_resolve_global_effects(bank, mem, index, front);
        assert(global_is_set(effects[effects.len() - 1]));
        lemma_set_global_unchanged(before.1, mem, index, effects.last());
        assert(front.push(effects.last()) =~= effects);
    } else {
        assert(effects =~= Seq::empty());
    }
}

/// A cell whose effects are all set passes the memory unchanged.
pub proof fn lemma_set_unit_unchanged(
    bank: MemoryBank,
    mem: MemoryType,
    index: int,
    unit: TrackImportUnitView,
)
    requires
        unit_is_set(unit),
    ensures
        spec_update_memory(bank, mem, index, unit).0 == unit,
{
    lemma_set_effects_unchanged(bank, mem, index, unit.effects);
    let te = spec_resolve_effects(bank, mem, index, unit.effects);
    lemma_set_globals_unchanged(te.1, mem, index, unit.global_effects);
}

/// A row whose effects are all set passes the memory unchanged.
pub proof fn lemma_set_row_unchanged(bank: MemoryBank, mem: MemoryType, row: Seq<TrackImportUnitView>)
    requires
        row_is_set(row),
    ensures
        spec_resolve_row(bank, mem, row).0 == row,
    decreases row.len(),
{
    if row.len() > 0 {
        let front = row.drop_last();
        assert forall|c: int| 0 <= c < front.len() implies unit_is_set(#[trigger] front[c]) by {
            assert(front[c] == row[c]);
        }
        lemma_set_row_unchanged(bank, mem, front);
        let before = spec_resolve_row(bank, mem, front);
        assert(unit_is_set(row[row.len() - 1]));
        lemma_set_unit_unchanged(before.1, mem, row.len() - 1, row.last());
        assert(front.push(row.last()) =~= row);
    } else {
        assert(row =~= Seq::empty());
    }
}

/// A pattern whose effects are all set passes the memory unchanged.
pub proof fn lemma_set_pattern_unchanged(
    bank: MemoryBank,
    mem: MemoryType,
    pattern: Seq<Seq<TrackImportUnitView>>,
)
    requires
        pattern_is_set(pattern),
    ensures
        spec_resolve_pattern(bank, mem, pattern).0 == pattern,
    decreases pattern.len(),
{
    if pattern.len() > 0 {
        let front = pattern.drop_last();
        assert forall|r: int| 0 <= r < front.len() implies row_is_set(#[trigger] front[r]) by {
            assert(front[r] == pattern[r]);
        }
        lemma_set_pattern_unchanged(bank, mem, front);
        let before = spec_resolve_pattern(bank, mem, front);
        assert(row_is_set(pattern[pattern.len() - 1]));
        lemma_set_row_unchanged(before.1, mem, pattern.last());
        assert(front.push(pattern.last()) =~= pattern);
    } else {
        assert(pattern =~= Seq::empty());
    }
}

/// Replaying a song over patterns whose effects are all set leaves every
/// pattern as it was.
pub proof fn lemma_replay_song_keeps_set_values(
    bank: MemoryBank,
    mem: MemoryType,
    song: Seq<usize>,
    patterns: Seq<Seq<Seq<TrackImportUnitView>>>,
)
    requires
        patterns_are_set(patterns),
    ensures
        spec_replay_song(bank, mem, song, patterns).0 == patterns,
    decreases song.len(),
{
    if song.len() > 0 {
        lemma_replay_song_keeps_set_values(bank, mem, song.drop_last(), patterns);
        let before = spec_replay_song(bank, mem, song.drop_last(), patterns);
        let o = song.last() as int;
        if o < patterns.len() {
            assert(pattern_is_set(patterns[o]));
            lemma_set_pattern_unchanged(before.1, mem, patterns[o]);
            assert(patterns.update(o, patterns[o]) =~= patterns);
        }
    }
}

/// Where every parameter of every effect of the patterns is other than 0,
/// resolving effect memory along any order leaves all patterns unchanged:
/// memory never takes the place of a value that is there.
pub proof fn lemma_replay_keeps_set_values(
    bank: MemoryBank,
    mem: MemoryType,
    order: Seq<Seq<usize>>,
    patterns: Seq<Seq<Seq<TrackImportUnitView>>>,
)
    requires
        patterns_are_set(patterns),
    ensures
        spec_replay(bank, mem, order, patterns).0 == patterns,
    decreases order.len(),
{
    if order.len() > 0 {
        lemma_replay_keeps_set_values(bank, mem, order.drop_last(), patterns);
        let before = spec_replay(bank, mem, order.drop_last(), patterns);
        lemma_replay_song_keeps_set_values(before.1, mem, order.last(), patterns);
    }
}

/// An effect with set parameters passes unchanged and is remembered: read
/// back from its slot, the memory gives the effect itself.
pub proof fn lemma_memory_update(bank: MemoryBank, mem: MemoryType, index: int, w: TrackImportEffect)
    requires
        bank.well_formed(),
        0 <= index < CHANNELS,
        has_plain_memory(mem, w),
        effect_is_set(w),
    ensures
        spec_resolve_effect(bank, mem, index, w).0 == w,
        spec_resolve_effect(bank, mem, index, w).1.well_formed(),
        spec_with_params(
            w,
            spec_resolve_effect(bank, mem, index, w).1.slot(index, spec_memory_scope(mem, w)),
        ) == w,
{
}

/// Substitution: after an effect with the set parameters of `first` was
/// resolved on a channel, and as long as its slot is as that left it, an
/// effect of the same kind with parameters of 0 resolves to `first` on that
/// channel, and leaves the memory as it is.
pub proof fn lemma_memory_substitution(
    bank: MemoryBank,
    later: MemoryBank,
    mem: MemoryType,
    index: int,
    first: TrackImportEffect,
)
    requires
        bank.well_formed(),
        later.well_formed(),
        0 <= index < CHANNELS,
        has_plain_memory(mem, first),
        effect_is_set(first),
        later.slot(index, spec_memory_scope(mem, first)) == spec_resolve_effect(
            bank,
            mem,
            index,
            first,
        ).1.slot(index, spec_memory_scope(mem, first)),
    ensures
        spec_resolve_effect(later, mem, index, zeroed(first)) == (first, later),
{
    let scope = spec_memory_scope(mem, first);
    let r = spec_resolve_effect(later, mem, index, zeroed(first));
    assert(spec_memory_scope(mem, zeroed(first)) == scope);
    match scope {
        MemoryScope::Channel(s) => {
            assert(s < ARRAY_SIZE);
            assert(r.1.channel =~= later.channel);
        },
        MemoryScope::Shared => {
            assert(r.1.global =~= later.global);
        },
        MemoryScope::Unused => {},
    }
}

/// Substitution for sample offsets: after an offset other than 0 was
/// resolved on a channel, an offset of 0 resolves to that offset plus the
/// high part that the channel remembers, and leaves the memory as it is.
pub proof fn lemma_sample_offset_substitution(
    bank: MemoryBank,
    mem: MemoryType,
    index: int,
    offset: usize,
)
    requires
        bank.well_formed(),
        0 <= index < CHANNELS,
        offset != 0,
    ensures
        ({
            let primed = spec_resolve_effect(
                bank,
                mem,
                index,
                TrackImportEffect::InstrumentSampleOffset(offset),
            ).1;
            spec_resolve_effect(primed, mem, index, TrackImportEffect::InstrumentSampleOffset(0))
                == (
                TrackImportEffect::InstrumentSampleOffset(
                    saturating_sum(
                        offset,
                        bank.slot(index, MemoryScope::Channel(SAMPLE_OFFSET_ADD_HIGH)).n0,
                    ),
                ),
                primed,
            )
        }),
{
    assert(index * ARRAY_SIZE + SAMPLE_OFFSET != index * ARRAY_SIZE + SAMPLE_OFFSET_ADD_HIGH);
}

} // verus!
