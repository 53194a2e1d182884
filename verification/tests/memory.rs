use xmrs::amount::Amount;
use xmrs::effect::{GlobalEffect, TrackEffect};
use xmrs::import_memory::{ImportMemory, MemoryType};
use xmrs::patternslot::PatternSlot;
use xmrs::period_helper::FrequencyType;
use xmrs::pitch::Pitch;
use xmrs::track_import_effect::TrackImportEffect;
use xmrs::track_import_unit::TrackImportUnit;

fn q(num: i32, den: u16) -> Amount {
    Amount::ratio(num, den)
}

fn unit(effects: Vec<TrackImportEffect>) -> TrackImportUnit {
    let mut u = TrackImportUnit::default();
    u.effects = effects;
    u
}

fn global_unit(global_effects: Vec<GlobalEffect>) -> TrackImportUnit {
    let mut u = TrackImportUnit::default();
    u.global_effects = global_effects;
    u
}

fn fx(effect_type: u8, effect_parameter: u8) -> PatternSlot {
    PatternSlot { note: Pitch::Empty, instrument: None, volume: 0, effect_type, effect_parameter }
}

fn resolve(m: &mut ImportMemory, mem: MemoryType, index: usize, e: TrackImportEffect) -> TrackImportEffect {
    let mut u = unit(vec![e]);
    m.update_memory(&mem, index, &mut u);
    u.effects[0]
}

const LIN: FrequencyType = FrequencyType::LinearFrequencies;

#[test]
fn zero_takes_the_remembered_value() {
    let mut m = ImportMemory::default();
    let v = TrackImportEffect::VolumeSlideN(q(-4, 64));
    assert_eq!(resolve(&mut m, MemoryType::Xm, 3, v), v);
    assert_eq!(resolve(&mut m, MemoryType::Xm, 3, TrackImportEffect::VolumeSlideN(q(0, 1))), v);
    // another channel remembers nothing
    assert_eq!(
        resolve(&mut m, MemoryType::Xm, 4, TrackImportEffect::VolumeSlideN(q(0, 1))),
        TrackImportEffect::VolumeSlideN(q(0, 1))
    );
    // a new value takes the place of the old one
    let w = TrackImportEffect::VolumeSlideN(q(7, 64));
    assert_eq!(resolve(&mut m, MemoryType::Xm, 3, w), w);
    assert_eq!(resolve(&mut m, MemoryType::Xm, 3, TrackImportEffect::VolumeSlideN(q(0, 1))), w);
}

#[test]
fn fresh_memory_gives_zero() {
    let mut m = ImportMemory::default();
    let z = TrackImportEffect::Vibrato(q(0, 1), q(0, 1));
    assert_eq!(resolve(&mut m, MemoryType::It, 0, z), z);
}

#[test]
fn each_parameter_has_its_own_memory() {
    let mut m = ImportMemory::default();
    let first = TrackImportEffect::Vibrato(q(4, 64), q(8, 16));
    assert_eq!(resolve(&mut m, MemoryType::Mod, 0, first), first);
    assert_eq!(
        resolve(&mut m, MemoryType::Mod, 0, TrackImportEffect::Vibrato(q(0, 1), q(1, 16))),
        TrackImportEffect::Vibrato(q(4, 64), q(1, 16))
    );
    assert_eq!(
        resolve(&mut m, MemoryType::Mod, 0, TrackImportEffect::Vibrato(q(0, 1), q(0, 1))),
        TrackImportEffect::Vibrato(q(4, 64), q(1, 16))
    );
    let mut n = ImportMemory::default();
    assert_eq!(resolve(&mut n, MemoryType::Xm, 1, TrackImportEffect::Tremor(3, 0)), TrackImportEffect::Tremor(3, 0));
    assert_eq!(resolve(&mut n, MemoryType::Xm, 1, TrackImportEffect::Tremor(0, 5)), TrackImportEffect::Tremor(3, 5));
    assert_eq!(resolve(&mut n, MemoryType::Xm, 1, TrackImportEffect::Tremor(0, 0)), TrackImportEffect::Tremor(3, 5));
}

#[test]
fn formats_differ_in_what_they_remember() {
    let zero = TrackImportEffect::VolumeSlideN(q(0, 1));
    let v = TrackImportEffect::VolumeSlideN(q(1, 64));
    // MOD has no memory for volume slides
    let mut m = ImportMemory::default();
    resolve(&mut m, MemoryType::Mod, 0, v);
    assert_eq!(resolve(&mut m, MemoryType::Mod, 0, zero), zero);
    // arpeggio: memory in IT, none in XM
    let arp = TrackImportEffect::Arpeggio(3, 7);
    let arp0 = TrackImportEffect::Arpeggio(0, 0);
    let mut m = ImportMemory::default();
    resolve(&mut m, MemoryType::Xm, 0, arp);
    assert_eq!(resolve(&mut m, MemoryType::Xm, 0, arp0), arp0);
    let mut m = ImportMemory::default();
    resolve(&mut m, MemoryType::It, 0, arp);
    assert_eq!(resolve(&mut m, MemoryType::It, 0, arp0), arp);
    // the volume column tone portamento: memory in XM only
    let tp = TrackImportEffect::TonePortamentoFxVol(q(16, 1));
    let tp0 = TrackImportEffect::TonePortamentoFxVol(q(0, 1));
    let mut m = ImportMemory::default();
    resolve(&mut m, MemoryType::It, 0, tp);
    assert_eq!(resolve(&mut m, MemoryType::It, 0, tp0), tp0);
    let mut m = ImportMemory::default();
    resolve(&mut m, MemoryType::Xm, 0, tp);
    assert_eq!(resolve(&mut m, MemoryType::Xm, 0, tp0), tp);
    // fine vibrato: memory in S3M only
    let vf = TrackImportEffect::VibratoFine(q(1, 64), q(1, 16));
    let vf0 = TrackImportEffect::VibratoFine(q(0, 1), q(0, 1));
    let mut m = ImportMemory::default();
    resolve(&mut m, MemoryType::It, 0, vf);
    assert_eq!(resolve(&mut m, MemoryType::It, 0, vf0), vf0);
    let mut m = ImportMemory::default();
    resolve(&mut m, MemoryType::S3m, 0, vf);
    assert_eq!(resolve(&mut m, MemoryType::S3m, 0, vf0), vf);
    // effects without memory pass as they are
    let mut m = ImportMemory::default();
    resolve(&mut m, MemoryType::It, 0, TrackImportEffect::ChannelPanningSlide0(q(1, 16)));
    assert_eq!(
        resolve(&mut m, MemoryType::It, 0, TrackImportEffect::ChannelPanningSlide0(q(0, 1))),
        TrackImportEffect::ChannelPanningSlide0(q(0, 1))
    );
}

#[test]
fn s3m_shares_one_memory_among_effects() {
    let mut m = ImportMemory::default();
    resolve(&mut m, MemoryType::S3m, 2, TrackImportEffect::PortamentoUp(q(-8, 1)));
    assert_eq!(
        resolve(&mut m, MemoryType::S3m, 2, TrackImportEffect::VolumeSlideN(q(0, 1))),
        TrackImportEffect::VolumeSlideN(q(-8, 1))
    );
    // in XM each effect has its own
    let mut m = ImportMemory::default();
    resolve(&mut m, MemoryType::Xm, 2, TrackImportEffect::PortamentoUp(q(-8, 1)));
    assert_eq!(
        resolve(&mut m, MemoryType::Xm, 2, TrackImportEffect::VolumeSlideN(q(0, 1))),
        TrackImportEffect::VolumeSlideN(q(0, 1))
    );
    assert_eq!(
        resolve(&mut m, MemoryType::Xm, 2, TrackImportEffect::PortamentoDown(q(0, 1))),
        TrackImportEffect::PortamentoDown(q(0, 1))
    );
    assert_eq!(
        resolve(&mut m, MemoryType::Xm, 2, TrackImportEffect::PortamentoUp(q(0, 1))),
        TrackImportEffect::PortamentoUp(q(-8, 1))
    );
}

#[test]
fn channel_volume_slides_share_their_memory() {
    let mut m = ImportMemory::default();
    resolve(&mut m, MemoryType::It, 0, TrackImportEffect::ChannelVolumeSlideN(q(3, 64)));
    assert_eq!(
        resolve(&mut m, MemoryType::It, 0, TrackImportEffect::ChannelVolumeSlide0(q(0, 1))),
        TrackImportEffect::ChannelVolumeSlide0(q(3, 64))
    );
    let mut g = global_unit(vec![GlobalEffect::VolumeSlide { speed: q(0, 1), fine: true }]);
    m.update_memory(&MemoryType::It, 0, &mut g);
    assert_eq!(g.global_effects, vec![GlobalEffect::VolumeSlide { speed: q(3, 64), fine: true }]);
}

#[test]
fn sample_offset_adds_the_high_part() {
    let mut m = ImportMemory::default();
    resolve(&mut m, MemoryType::It, 0, TrackImportEffect::InstrumentSampleOffset(512));
    assert_eq!(
        resolve(&mut m, MemoryType::It, 0, TrackImportEffect::InstrumentSampleOffset(0)),
        TrackImportEffect::InstrumentSampleOffset(512)
    );
    let high = TrackImportEffect::InstrumentSampleOffsetAddHigh(131072);
    assert_eq!(resolve(&mut m, MemoryType::It, 0, high), high);
    assert_eq!(
        resolve(&mut m, MemoryType::It, 0, TrackImportEffect::InstrumentSampleOffset(0)),
        TrackImportEffect::InstrumentSampleOffset(131584)
    );
    // an offset that is given is not changed
    assert_eq!(
        resolve(&mut m, MemoryType::It, 0, TrackImportEffect::InstrumentSampleOffset(256)),
        TrackImportEffect::InstrumentSampleOffset(256)
    );
    // a high part of 0 is remembered too
    resolve(&mut m, MemoryType::It, 0, TrackImportEffect::InstrumentSampleOffsetAddHigh(0));
    assert_eq!(
        resolve(&mut m, MemoryType::It, 0, TrackImportEffect::InstrumentSampleOffset(0)),
        TrackImportEffect::InstrumentSampleOffset(256)
    );
    // XM keeps no high part
    let mut x = ImportMemory::default();
    resolve(&mut x, MemoryType::Xm, 0, high);
    resolve(&mut x, MemoryType::Xm, 0, TrackImportEffect::InstrumentSampleOffset(512));
    assert_eq!(
        resolve(&mut x, MemoryType::Xm, 0, TrackImportEffect::InstrumentSampleOffset(0)),
        TrackImportEffect::InstrumentSampleOffset(512)
    );
}

#[test]
fn tempo_slides() {
    let mut m = ImportMemory::default();
    let mut up = global_unit(vec![GlobalEffect::BpmSlide(5)]);
    m.update_memory(&MemoryType::It, 0, &mut up);
    assert_eq!(up.global_effects, vec![GlobalEffect::BpmSlide(5)]);
    let mut down = global_unit(vec![GlobalEffect::BpmSlide(-3)]);
    m.update_memory(&MemoryType::It, 0, &mut down);
    assert_eq!(down.global_effects, vec![GlobalEffect::BpmSlide(-3)]);
    // a slide of 0 takes the upward slide
    let mut zero = global_unit(vec![GlobalEffect::BpmSlide(0), GlobalEffect::Speed(0)]);
    m.update_memory(&MemoryType::It, 0, &mut zero);
    assert_eq!(zero.global_effects, vec![GlobalEffect::BpmSlide(5), GlobalEffect::Speed(0)]);
    let mut none = global_unit(vec![GlobalEffect::BpmSlide(0)]);
    m.update_memory(&MemoryType::Mod, 0, &mut none);
    assert_eq!(none.global_effects, vec![GlobalEffect::BpmSlide(0)]);
}

#[test]
fn set_values_pass_unchanged() {
    let effects = vec![
        TrackImportEffect::Arpeggio(1, 2),
        TrackImportEffect::Panbrello(q(1, 256), q(1, 4)),
        TrackImportEffect::PortamentoUp(q(-4, 1)),
        TrackImportEffect::NoteRetrigExtended(1, 9),
        TrackImportEffect::TonePortamento(q(4, 1)),
        TrackImportEffect::Tremolo(q(1, 64), q(1, 16)),
        TrackImportEffect::InstrumentSampleOffset(256),
        TrackImportEffect::Vibrato(q(1, 64), q(1, 16)),
        TrackImportEffect::VolumeSlide0(q(1, 64)),
        TrackImportEffect::ChannelVolumeSlideN(q(1, 64)),
        TrackImportEffect::Glissando(false),
    ];
    for mem in [MemoryType::Mod, MemoryType::Xm, MemoryType::S3m, MemoryType::It] {
        let mut m = ImportMemory::default();
        let mut u = unit(effects.clone());
        u.global_effects = vec![GlobalEffect::BpmSlide(2), GlobalEffect::VolumeSlide { speed: q(1, 64), fine: false }];
        m.update_memory(&mem, 5, &mut u);
        m.update_memory(&mem, 5, &mut u);
        assert_eq!(u.effects, effects);
        assert_eq!(
            u.global_effects,
            vec![GlobalEffect::BpmSlide(2), GlobalEffect::VolumeSlide { speed: q(1, 64), fine: false }]
        );
    }
}

#[test]
fn volume_slide_down_then_repeat() {
    // four channels, two rows: row 0 slides the volume down by 4 on
    // channel 0, row 1 repeats the slide with a parameter of 0
    let empty = PatternSlot::default();
    let pattern = vec![
        vec![fx(0x0A, 0x04), empty, empty, empty],
        vec![fx(0x0A, 0x00), empty, empty, empty],
    ];
    let mut m = ImportMemory::default();
    let out = m.unpack_patterns(LIN, MemoryType::Xm, &vec![vec![0]], &vec![pattern]);
    assert_eq!(out.len(), 1);
    assert_eq!(out[0].len(), 2);
    assert_eq!(out[0][0].len(), 4);
    let slide = TrackEffect::VolumeSlide { speed: q(-4, 64), fine: false };
    assert_eq!(out[0][0][0].effects, vec![slide]);
    assert_eq!(out[0][1][0].effects, vec![slide]);
    assert_eq!(out[0][0][1].effects, vec![]);
    assert_eq!(out[0][1][3].effects, vec![]);
    assert_eq!(out[0][0][0].velocity, q(1, 1));
}

#[test]
fn memory_follows_the_order_of_the_song() {
    // pattern 0 slides by 1, pattern 1 repeats, pattern 2 slides by 2
    let p0 = vec![vec![fx(0x0A, 0x10)]];
    let p1 = vec![vec![fx(0x0A, 0x00)]];
    let p2 = vec![vec![fx(0x0A, 0x20)]];
    let patterns = vec![p0, p1, p2];
    let mut m = ImportMemory::default();
    let out = m.unpack_patterns(LIN, MemoryType::Xm, &vec![vec![2, 1]], &patterns);
    // pattern 1 is played after pattern 2
    assert_eq!(out[1][0][0].effects, vec![TrackEffect::VolumeSlide { speed: q(2, 64), fine: false }]);
    // pattern 0 is not played: its cells have no track effects
    assert_eq!(out[0][0][0].effects, vec![]);
    // an index without a pattern is passed over
    let mut m = ImportMemory::default();
    let out = m.unpack_patterns(LIN, MemoryType::Xm, &vec![vec![0, 9], vec![], vec![1]], &patterns);
    assert_eq!(out[1][0][0].effects, vec![TrackEffect::VolumeSlide { speed: q(1, 64), fine: false }]);
    assert_eq!(out[2][0][0].effects, vec![]);
}

#[test]
fn the_first_visit_settles_a_repeated_pattern() {
    // the pattern that repeats is played after two different patterns; once
    // its zero is replaced, later visits find a value and keep it
    let p0 = vec![vec![fx(0x0A, 0x10)]];
    let p1 = vec![vec![fx(0x0A, 0x00)]];
    let p2 = vec![vec![fx(0x0A, 0x20)]];
    let mut m = ImportMemory::default();
    let out = m.unpack_patterns(LIN, MemoryType::Xm, &vec![vec![0, 1, 2, 1]], &vec![p0, p1, p2]);
    assert_eq!(out[1][0][0].effects, vec![TrackEffect::VolumeSlide { speed: q(1, 64), fine: false }]);
}

#[test]
fn global_effects_are_kept_for_every_pattern() {
    let p0 = vec![vec![fx(0x0F, 6)]];
    let mut m = ImportMemory::default();
    let out = m.unpack_patterns(LIN, MemoryType::Mod, &vec![], &vec![p0]);
    assert_eq!(out[0][0][0].global_effects, vec![GlobalEffect::Speed(6)]);
}

#[test]
fn it_patterns_use_the_it_decoder() {
    let p0 = vec![vec![
        PatternSlot { note: Pitch::C5, instrument: Some(0), volume: 255, effect_type: 0x0A, effect_parameter: 0x37 },
        PatternSlot { note: Pitch::Empty, instrument: None, volume: 255, effect_type: 0x0A, effect_parameter: 0x00 },
    ]];
    let mut m = ImportMemory::default();
    let out = m.unpack_patterns(LIN, MemoryType::It, &vec![vec![0]], &vec![p0]);
    assert_eq!(out[0][0][0].note, Pitch::C5);
    assert_eq!(out[0][0][0].instrument, Some(0));
    assert_eq!(out[0][0][0].effects, vec![TrackEffect::Arpeggio { half1: 3, half2: 7 }]);
    assert_eq!(out[0][0][1].effects, vec![]);
}
