use xmrs::amount::Amount;
use xmrs::effect::{GlobalEffect, MidiMacroType, NoteRetrigOperator, TrackEffect};
use xmrs::instr_default::NewNoteAction;
use xmrs::it_effect::ItEffect;
use xmrs::mod_xm_effect::ModXmEffect;
use xmrs::patternslot::PatternSlot;
use xmrs::period_helper::FrequencyType;
use xmrs::pitch::Pitch;
use xmrs::track_import_effect::{retrig_operator, TrackImportEffect};
use xmrs::track_unit::TrackUnit;
use xmrs::waveform::Waveform;

fn fx(effect_type: u8, effect_parameter: u8) -> PatternSlot {
    PatternSlot { note: Pitch::Empty, instrument: None, volume: 0, effect_type, effect_parameter }
}

fn vol(volume: u8) -> PatternSlot {
    PatternSlot { note: Pitch::Empty, instrument: None, volume, effect_type: 0xFF, effect_parameter: 0 }
}

fn q(num: i32, den: u16) -> Amount {
    Amount::ratio(num, den)
}

const LIN: FrequencyType = FrequencyType::LinearFrequencies;
const AMI: FrequencyType = FrequencyType::AmigaFrequencies;

#[test]
fn merge_volume_slides() {
    let a = TrackEffect::VolumeSlide { speed: q(2, 1), fine: false };
    let b = TrackEffect::VolumeSlide { speed: q(-1, 2), fine: true };
    assert_eq!(a.merge(&b), Some(TrackEffect::VolumeSlide { speed: q(3, 2), fine: true }));
}

#[test]
fn merge_adds_counts_and_takes_later_flags() {
    let a = TrackEffect::NoteCut { tick: 2, past: true };
    let b = TrackEffect::NoteCut { tick: 3, past: false };
    assert_eq!(a.merge(&b), Some(TrackEffect::NoteCut { tick: 5, past: false }));
    let a = TrackEffect::Arpeggio { half1: 1, half2: 2 };
    let b = TrackEffect::Arpeggio { half1: 10, half2: 20 };
    assert_eq!(a.merge(&b), Some(TrackEffect::Arpeggio { half1: 11, half2: 22 }));
    let a = TrackEffect::NoteDelay(usize::MAX);
    assert_eq!(a.merge(&TrackEffect::NoteDelay(1)), Some(TrackEffect::NoteDelay(usize::MAX)));
    let a = TrackEffect::VibratoWaveform { waveform: Waveform::Sine, retrig: true };
    let b = TrackEffect::VibratoWaveform { waveform: Waveform::Square, retrig: false };
    assert_eq!(a.merge(&b), Some(b));
    let a = TrackEffect::NoteRetrig { speed: 1, volume_modifier: NoteRetrigOperator::Unchanged };
    let b = TrackEffect::NoteRetrig { speed: 2, volume_modifier: NoteRetrigOperator::Mul(q(1, 2)) };
    assert_eq!(
        a.merge(&b),
        Some(TrackEffect::NoteRetrig { speed: 3, volume_modifier: NoteRetrigOperator::Mul(q(1, 2)) })
    );
    assert_eq!(
        TrackEffect::Glissando(true).merge(&TrackEffect::Glissando(false)),
        Some(TrackEffect::Glissando(false))
    );
}

#[test]
fn merge_limits_volumes() {
    let a = TrackEffect::ChannelVolume(q(3, 4));
    let b = TrackEffect::ChannelVolume(q(3, 4));
    assert_eq!(a.merge(&b), Some(TrackEffect::ChannelVolume(q(1, 1))));
    let a = TrackEffect::Volume { value: q(1, 4), tick: 1 };
    let b = TrackEffect::Volume { value: q(1, 4), tick: 2 };
    assert_eq!(a.merge(&b), Some(TrackEffect::Volume { value: q(1, 2), tick: 3 }));
    // a panning position is not limited
    let a = TrackEffect::ChannelPanning(q(3, 4));
    assert_eq!(a.merge(&a), Some(TrackEffect::ChannelPanning(q(3, 2))));
}

#[test]
fn merge_fails_without_a_rule() {
    let a = TrackEffect::InstrumentSurround(true);
    assert_eq!(a.merge(&TrackEffect::InstrumentSurround(false)), None);
    let a = TrackEffect::InstrumentNewNoteAction(NewNoteAction::NoteOff);
    assert_eq!(a.merge(&a), None);
    assert_eq!(TrackEffect::InstrumentVolumeEnvelope(true).merge(&TrackEffect::InstrumentVolumeEnvelope(true)), None);
    // different kinds do not merge
    assert_eq!(TrackEffect::Portamento(q(1, 1)).merge(&TrackEffect::TonePortamento(q(1, 1))), None);
    assert!(TrackEffect::Portamento(q(1, 1)).same_kind(&TrackEffect::Portamento(q(2, 1))));
    assert!(!TrackEffect::Portamento(q(1, 1)).same_kind(&TrackEffect::TonePortamento(q(1, 1))));
}

#[test]
fn retrig_codes() {
    assert_eq!(retrig_operator(0), NoteRetrigOperator::Unchanged);
    assert_eq!(retrig_operator(1), NoteRetrigOperator::Sum(q(-1, 1)));
    assert_eq!(retrig_operator(5), NoteRetrigOperator::Sum(q(-16, 1)));
    assert_eq!(retrig_operator(6), NoteRetrigOperator::Mul(q(2, 3)));
    assert_eq!(retrig_operator(7), NoteRetrigOperator::Mul(q(1, 2)));
    assert_eq!(retrig_operator(8), NoteRetrigOperator::Unchanged);
    assert_eq!(retrig_operator(13), NoteRetrigOperator::Sum(q(16, 1)));
    assert_eq!(retrig_operator(14), NoteRetrigOperator::Mul(q(3, 2)));
    assert_eq!(retrig_operator(15), NoteRetrigOperator::Mul(q(2, 1)));
    assert_eq!(retrig_operator(16), NoteRetrigOperator::Unchanged);
}

#[test]
fn canonical_effects_sum_the_slides() {
    let effects = vec![
        TrackImportEffect::PortamentoUp(q(-8, 1)),
        TrackImportEffect::VolumeSlideN(q(1, 64)),
        TrackImportEffect::PortamentoFineDown(q(4, 1)),
        TrackImportEffect::PortamentoExtraFineDown(q(1, 1)),
        TrackImportEffect::TonePortamento(q(3, 1)),
        TrackImportEffect::TonePortamentoFxVol(q(16, 1)),
        TrackImportEffect::VibratoDepth(q(1, 16)),
        TrackImportEffect::VibratoDepthFxVol(q(2, 16)),
        TrackImportEffect::Vibrato(q(1, 64), q(1, 16)),
        TrackImportEffect::VibratoFine(q(2, 64), q(3, 16)),
    ];
    assert_eq!(
        TrackImportEffect::to_track_effects(&effects),
        vec![
            TrackEffect::Portamento(q(-3, 1)),
            TrackEffect::TonePortamento(q(19, 1)),
            TrackEffect::VibratoDepth(q(3, 16)),
            TrackEffect::Vibrato { speed: q(3, 64), depth: q(4, 16) },
            TrackEffect::VolumeSlide { speed: q(1, 64), fine: false },
        ]
    );
}

#[test]
fn canonical_effects_leave_out_sums_of_zero() {
    let effects = vec![
        TrackImportEffect::PortamentoUp(q(-4, 1)),
        TrackImportEffect::PortamentoDown(q(4, 1)),
        TrackImportEffect::TonePortamento(q(0, 1)),
        TrackImportEffect::Vibrato(q(1, 64), q(0, 1)),
        TrackImportEffect::InstrumentSampleOffsetAddHigh(65536),
    ];
    assert_eq!(TrackImportEffect::to_track_effects(&effects), vec![]);
    assert_eq!(TrackImportEffect::to_track_effects(&vec![]), vec![]);
}

#[test]
fn canonical_effects_merge_duplicates() {
    let effects = vec![
        TrackImportEffect::VolumeSlideN(q(2, 1)),
        TrackImportEffect::NoteDelay(1),
        TrackImportEffect::VolumeSlide0(q(-1, 2)),
        TrackImportEffect::InstrumentSurround(true),
        TrackImportEffect::InstrumentSurround(false),
        TrackImportEffect::NoteDelay(2),
    ];
    assert_eq!(
        TrackImportEffect::to_track_effects(&effects),
        vec![
            TrackEffect::VolumeSlide { speed: q(3, 2), fine: true },
            TrackEffect::NoteDelay(3),
            TrackEffect::InstrumentSurround(true),
        ]
    );
}

#[test]
fn canonical_effects_one_to_one() {
    let effects = vec![
        TrackImportEffect::Arpeggio(3, 7),
        TrackImportEffect::ChannelPanningSlide0(q(1, 16)),
        TrackImportEffect::ChannelVolumeSlideN(q(-1, 64)),
        TrackImportEffect::NoteRetrig(3),
        TrackImportEffect::Tremor(2, 3),
        TrackImportEffect::Volume(q(1, 2), 0),
    ];
    assert_eq!(
        TrackImportEffect::to_track_effects(&effects),
        vec![
            TrackEffect::Arpeggio { half1: 3, half2: 7 },
            TrackEffect::ChannelPanningSlide { speed: q(1, 16), fine: true },
            TrackEffect::ChannelVolumeSlide { speed: q(-1, 64), fine: false },
            TrackEffect::NoteRetrig { speed: 3, volume_modifier: NoteRetrigOperator::Unchanged },
            TrackEffect::Tremor { on_time: 2, off_time: 3 },
            TrackEffect::Volume { value: q(1, 2), tick: 0 },
        ]
    );
    assert_eq!(
        TrackImportEffect::to_track_effects(&vec![TrackImportEffect::NoteRetrigExtended(4, 6)]),
        vec![TrackEffect::NoteRetrig { speed: 4, volume_modifier: NoteRetrigOperator::Mul(q(2, 3)) }]
    );
}

#[test]
fn it_effect_column() {
    let one = |t: u8, p: u8| ItEffect::parse_it_effect(LIN, &fx(t, p));
    assert_eq!(one(0x04, 0x10), Some(vec![TrackImportEffect::VolumeSlideN(q(0, 1))]));
    assert_eq!(one(0x04, 0x0F), Some(vec![TrackImportEffect::VolumeSlide0(q(-15, 64))]));
    assert_eq!(one(0x04, 0x04), None);
    assert_eq!(one(0x05, 0xE3), Some(vec![TrackImportEffect::PortamentoExtraFineDown(q(3, 1))]));
    assert_eq!(one(0x05, 0xF3), Some(vec![TrackImportEffect::PortamentoFineDown(q(12, 1))]));
    assert_eq!(one(0x05, 0x23), Some(vec![TrackImportEffect::PortamentoDown(q(140, 1))]));
    assert_eq!(one(0x06, 0xE3), Some(vec![TrackImportEffect::PortamentoExtraFineUp(q(-3, 1))]));
    assert_eq!(one(0x06, 0xF3), Some(vec![TrackImportEffect::PortamentoFineUp(q(-12, 1))]));
    assert_eq!(one(0x06, 0x23), Some(vec![TrackImportEffect::PortamentoUp(q(-140, 1))]));
    assert_eq!(one(0x07, 0x10), Some(vec![TrackImportEffect::TonePortamento(q(64, 1))]));
    assert_eq!(
        ItEffect::parse_it_effect(AMI, &fx(0x07, 0x10)),
        Some(vec![TrackImportEffect::TonePortamento(q(16, 1))])
    );
    assert_eq!(one(0x08, 0x48), Some(vec![TrackImportEffect::Vibrato(q(4, 256), q(2, 1))]));
    assert_eq!(one(0x09, 0x35), Some(vec![TrackImportEffect::Tremor(3, 5)]));
    assert_eq!(one(0x0A, 0x37), Some(vec![TrackImportEffect::Arpeggio(3, 7)]));
    assert_eq!(one(0x0A, 0x00), None);
    assert_eq!(
        one(0x0B, 0x0F),
        Some(vec![
            TrackImportEffect::Vibrato(q(0, 1), q(0, 1)),
            TrackImportEffect::VolumeSlide0(q(-15, 64))
        ])
    );
    assert_eq!(
        one(0x0C, 0x23),
        Some(vec![TrackImportEffect::TonePortamento(q(0, 1)), TrackImportEffect::VolumeSlideN(q(0, 1))])
    );
    assert_eq!(one(0x0D, 0x20), Some(vec![TrackImportEffect::ChannelVolume(q(1, 1))]));
    assert_eq!(one(0x0D, 0x80), Some(vec![TrackImportEffect::ChannelVolume(q(2, 1))]));
    assert_eq!(one(0x0E, 0x03), Some(vec![TrackImportEffect::ChannelVolumeSlideN(q(-3, 64))]));
    assert_eq!(one(0x0E, 0x30), Some(vec![TrackImportEffect::ChannelVolumeSlideN(q(3, 64))]));
    assert_eq!(one(0x0E, 0xF3), Some(vec![TrackImportEffect::ChannelVolumeSlide0(q(-3, 64))]));
    assert_eq!(one(0x0E, 0x3F), Some(vec![TrackImportEffect::ChannelVolumeSlide0(q(3, 64))]));
    assert_eq!(one(0x0E, 0x33), None);
    assert_eq!(one(0x0F, 0x02), Some(vec![TrackImportEffect::InstrumentSampleOffset(512)]));
    assert_eq!(one(0x10, 0x30), Some(vec![TrackImportEffect::ChannelPanningSlideN(q(3, 16))]));
    assert_eq!(one(0x10, 0x03), Some(vec![TrackImportEffect::ChannelPanningSlideN(q(-3, 16))]));
    assert_eq!(one(0x10, 0x3F), Some(vec![TrackImportEffect::ChannelPanningSlide0(q(3, 16))]));
    assert_eq!(one(0x10, 0xF3), None);
    assert_eq!(one(0x11, 0x63), Some(vec![TrackImportEffect::NoteRetrigExtended(3, 6)]));
    assert_eq!(one(0x12, 0x48), Some(vec![TrackImportEffect::Tremolo(q(4, 64), q(8, 16))]));
    assert_eq!(one(0x15, 0x48), Some(vec![TrackImportEffect::Vibrato(q(4, 256), q(8, 16))]));
    assert_eq!(one(0x18, 0x80), Some(vec![TrackImportEffect::ChannelPanning(q(1, 2))]));
    assert_eq!(one(0x19, 0x48), Some(vec![TrackImportEffect::Panbrello(q(4, 256), q(2, 1))]));
    assert_eq!(one(0x01, 0x06), None);
    assert_eq!(one(0x1B, 0x06), None);
}

#[test]
fn it_special_commands() {
    let one = |p: u8| ItEffect::parse_it_effect(LIN, &fx(0x13, p));
    assert_eq!(one(0x31), Some(vec![TrackImportEffect::VibratoWaveform(Waveform::RampDown, true)]));
    assert_eq!(one(0x42), Some(vec![TrackImportEffect::TremoloWaveform(Waveform::Square, true)]));
    assert_eq!(one(0x53), Some(vec![TrackImportEffect::PanbrelloWaveform(Waveform::Random, true)]));
    assert_eq!(one(0x34), Some(vec![TrackImportEffect::VibratoWaveform(Waveform::Sine, true)]));
    assert_eq!(one(0x70), Some(vec![TrackImportEffect::NoteCut(0, true)]));
    assert_eq!(one(0x71), Some(vec![TrackImportEffect::NoteOff(0, true)]));
    assert_eq!(one(0x72), Some(vec![TrackImportEffect::NoteFadeOut(0, true)]));
    assert_eq!(one(0x73), Some(vec![TrackImportEffect::InstrumentNewNoteAction(NewNoteAction::NoteCut)]));
    assert_eq!(one(0x74), Some(vec![TrackImportEffect::InstrumentNewNoteAction(NewNoteAction::Continue)]));
    assert_eq!(one(0x75), Some(vec![TrackImportEffect::InstrumentNewNoteAction(NewNoteAction::NoteOff)]));
    assert_eq!(one(0x76), Some(vec![TrackImportEffect::InstrumentNewNoteAction(NewNoteAction::NoteFadeOut)]));
    assert_eq!(one(0x77), Some(vec![TrackImportEffect::InstrumentVolumeEnvelope(true)]));
    assert_eq!(one(0x78), Some(vec![TrackImportEffect::InstrumentVolumeEnvelope(false)]));
    assert_eq!(one(0x79), Some(vec![TrackImportEffect::InstrumentPanningEnvelope(true)]));
    assert_eq!(one(0x7A), Some(vec![TrackImportEffect::InstrumentPanningEnvelope(false)]));
    assert_eq!(one(0x7B), Some(vec![TrackImportEffect::InstrumentPitchEnvelope(true)]));
    assert_eq!(one(0x7C), Some(vec![TrackImportEffect::InstrumentPitchEnvelope(false)]));
    assert_eq!(one(0x7D), None);
    assert_eq!(one(0x88), Some(vec![TrackImportEffect::ChannelPanning(q(1, 2))]));
    assert_eq!(one(0x91), Some(vec![TrackImportEffect::InstrumentSurround(true)]));
    assert_eq!(one(0x90), Some(vec![TrackImportEffect::InstrumentSurround(false)]));
    assert_eq!(one(0xA2), Some(vec![TrackImportEffect::InstrumentSampleOffsetAddHigh(131072)]));
    assert_eq!(one(0xC3), Some(vec![TrackImportEffect::NoteCut(3, false)]));
    assert_eq!(one(0xD3), Some(vec![TrackImportEffect::NoteDelay(3)]));
    assert_eq!(one(0x63), None);
    assert_eq!(one(0x13), None);
}

#[test]
fn it_global_effects() {
    let one = |t: u8, p: u8| ItEffect::parse_global_it_effect(&fx(t, p));
    assert_eq!(one(0x01, 6), Some(GlobalEffect::Speed(6)));
    assert_eq!(one(0x02, 9), Some(GlobalEffect::PositionJump(9)));
    assert_eq!(one(0x03, 0x32), Some(GlobalEffect::PatternBreak(32)));
    assert_eq!(one(0x13, 0x63), Some(GlobalEffect::PatternDelay { quantity: 3, tempo: false }));
    assert_eq!(one(0x13, 0xB3), Some(GlobalEffect::PatternLoop(3)));
    assert_eq!(one(0x13, 0xE3), Some(GlobalEffect::PatternDelay { quantity: 3, tempo: true }));
    assert_eq!(one(0x13, 0xF3), Some(GlobalEffect::MidiMacro(MidiMacroType::Parametric(Some(3)))));
    assert_eq!(one(0x13, 0x73), None);
    assert_eq!(one(0x14, 0x05), Some(GlobalEffect::BpmSlide(-5)));
    assert_eq!(one(0x14, 0x15), Some(GlobalEffect::Bpm(0x15)));
    assert_eq!(one(0x14, 0x7D), Some(GlobalEffect::Bpm(125)));
    assert_eq!(one(0x16, 0x20), Some(GlobalEffect::Volume(q(1, 1))));
    assert_eq!(one(0x16, 0x80), Some(GlobalEffect::Volume(q(2, 1))));
    assert_eq!(one(0x17, 0x03), Some(GlobalEffect::VolumeSlide { speed: q(-3, 64), fine: false }));
    assert_eq!(one(0x17, 0x30), Some(GlobalEffect::VolumeSlide { speed: q(3, 64), fine: false }));
    assert_eq!(one(0x17, 0x3F), Some(GlobalEffect::VolumeSlide { speed: q(3, 64), fine: true }));
    assert_eq!(one(0x17, 0xF3), None);
    assert_eq!(one(0x1A, 0x7F), Some(GlobalEffect::MidiMacro(MidiMacroType::Parametric(None))));
    assert_eq!(one(0x1A, 0x83), Some(GlobalEffect::MidiMacro(MidiMacroType::Fixed(3))));
    assert_eq!(one(0x04, 0x83), None);
}

#[test]
fn it_volume_column() {
    let first = |v: u8, f: FrequencyType| {
        let u = ItEffect::it_unpack(f, &vol(v));
        if u.effects.is_empty() {
            None
        } else {
            Some(u.effects[0])
        }
    };
    assert_eq!(first(0, LIN), Some(TrackImportEffect::ChannelVolume(q(0, 1))));
    assert_eq!(first(64, LIN), Some(TrackImportEffect::ChannelVolume(q(1, 1))));
    assert_eq!(first(128, LIN), Some(TrackImportEffect::ChannelPanning(q(0, 1))));
    assert_eq!(first(160, LIN), Some(TrackImportEffect::ChannelPanning(q(1, 2))));
    assert_eq!(first(192, LIN), Some(TrackImportEffect::ChannelPanning(q(1, 1))));
    assert_eq!(first(65, LIN), Some(TrackImportEffect::VolumeSlide0(q(0, 1))));
    assert_eq!(first(68, LIN), Some(TrackImportEffect::VolumeSlide0(q(3, 16))));
    assert_eq!(first(78, LIN), Some(TrackImportEffect::VolumeSlide0(q(-3, 16))));
    assert_eq!(first(88, LIN), Some(TrackImportEffect::VolumeSlideN(q(3, 16))));
    assert_eq!(first(98, LIN), Some(TrackImportEffect::VolumeSlideN(q(-3, 16))));
    assert_eq!(first(108, LIN), Some(TrackImportEffect::PortamentoDown(q(-3, 16))));
    assert_eq!(first(118, LIN), Some(TrackImportEffect::PortamentoUp(q(3, 16))));
    assert_eq!(first(127, LIN), Some(TrackImportEffect::TonePortamento(q(16, 1))));
    assert_eq!(first(127, AMI), Some(TrackImportEffect::TonePortamento(q(4, 1))));
    // from 193 on the byte less 128 less 5 is taken
    assert_eq!(first(193, LIN), Some(TrackImportEffect::TonePortamento(q(0, 1))));
    assert_eq!(first(202, LIN), Some(TrackImportEffect::TonePortamento(q(1020, 1))));
    assert_eq!(first(203, LIN), Some(TrackImportEffect::Vibrato(q(0, 1), q(0, 1))));
    assert_eq!(first(206, LIN), Some(TrackImportEffect::Vibrato(q(0, 1), q(3, 4))));
    assert_eq!(first(213, LIN), None);
    assert_eq!(first(255, LIN), None);
}

#[test]
fn it_cell_as_a_unit() {
    let slot = PatternSlot {
        note: Pitch::C5,
        instrument: Some(3),
        volume: 32,
        effect_type: 0x0B,
        effect_parameter: 0x00,
    };
    let u = ItEffect::it_unpack(LIN, &slot);
    assert_eq!(u.note, Pitch::C5);
    assert_eq!(u.instrument, Some(3));
    assert_eq!(u.velocity, q(1, 1));
    assert_eq!(
        u.effects,
        vec![
            TrackImportEffect::ChannelVolume(q(1, 2)),
            TrackImportEffect::Vibrato(q(0, 1), q(0, 1)),
            TrackImportEffect::VolumeSlideN(q(0, 1)),
        ]
    );
    assert_eq!(u.global_effects, vec![]);
    let jump = ItEffect::it_unpack(LIN, &PatternSlot { volume: 255, effect_type: 2, effect_parameter: 4, ..slot });
    assert_eq!(jump.effects, vec![]);
    assert_eq!(jump.global_effects, vec![GlobalEffect::PositionJump(4)]);
}

fn xm_effects(t: u8, p: u8, f: FrequencyType) -> Vec<TrackImportEffect> {
    ModXmEffect::mod_xm_unpack(f, &fx(t, p)).effects
}

#[test]
fn mod_xm_effect_column() {
    let one = |t: u8, p: u8| xm_effects(t, p, LIN);
    assert_eq!(one(0x00, 0x37), vec![TrackImportEffect::Arpeggio(3, 7)]);
    assert_eq!(one(0x00, 0x00), vec![]);
    assert_eq!(one(0x01, 0x03), vec![TrackImportEffect::PortamentoUp(q(-12, 1))]);
    assert_eq!(one(0x02, 0x03), vec![TrackImportEffect::PortamentoDown(q(12, 1))]);
    assert_eq!(one(0x03, 0x10), vec![TrackImportEffect::TonePortamento(q(64, 1))]);
    assert_eq!(xm_effects(0x03, 0x10, AMI), vec![TrackImportEffect::TonePortamento(q(16, 1))]);
    assert_eq!(one(0x04, 0x48), vec![TrackImportEffect::Vibrato(q(4, 64), q(8, 16))]);
    assert_eq!(
        one(0x05, 0x30),
        vec![TrackImportEffect::TonePortamento(q(0, 1)), TrackImportEffect::VolumeSlideN(q(3, 64))]
    );
    assert_eq!(
        one(0x05, 0x33),
        vec![TrackImportEffect::TonePortamento(q(0, 1)), TrackImportEffect::VolumeSlideN(q(0, 1))]
    );
    assert_eq!(
        one(0x06, 0x03),
        vec![TrackImportEffect::Vibrato(q(0, 1), q(0, 1)), TrackImportEffect::VolumeSlideN(q(-3, 64))]
    );
    assert_eq!(one(0x07, 0x48), vec![TrackImportEffect::Tremolo(q(4, 64), q(8, 16))]);
    assert_eq!(one(0x08, 0xFF), vec![TrackImportEffect::ChannelPanning(q(1, 1))]);
    assert_eq!(one(0x08, 0x33), vec![TrackImportEffect::ChannelPanning(q(51, 255))]);
    assert_eq!(one(0x09, 0x02), vec![TrackImportEffect::InstrumentSampleOffset(512)]);
    assert_eq!(one(0x0A, 0x04), vec![TrackImportEffect::VolumeSlideN(q(-4, 64))]);
    assert_eq!(one(0x0A, 0x40), vec![TrackImportEffect::VolumeSlideN(q(4, 64))]);
    assert_eq!(one(0x0A, 0x00), vec![TrackImportEffect::VolumeSlideN(q(0, 1))]);
    assert_eq!(one(0x0A, 0x44), vec![]);
    assert_eq!(one(0x0C, 0x20), vec![TrackImportEffect::Volume(q(1, 1), 0)]);
    assert_eq!(one(0x0C, 0x50), vec![TrackImportEffect::Volume(q(80, 64), 0)]);
    assert_eq!(one(0x14, 0x03), vec![TrackImportEffect::NoteOff(3, false)]);
    assert_eq!(one(0x15, 0x03), vec![TrackImportEffect::InstrumentVolumeEnvelopePosition(3)]);
    assert_eq!(one(0x19, 0x30), vec![TrackImportEffect::ChannelPanningSlideN(q(3, 16))]);
    assert_eq!(one(0x19, 0x03), vec![TrackImportEffect::ChannelPanningSlideN(q(-3, 16))]);
    assert_eq!(one(0x19, 0x33), vec![]);
    assert_eq!(one(0x1B, 0x63), vec![TrackImportEffect::NoteRetrigExtended(3, 6)]);
    assert_eq!(one(0x1D, 0x35), vec![TrackImportEffect::Tremor(3, 5)]);
    assert_eq!(one(0x21, 0x13), vec![TrackImportEffect::PortamentoExtraFineUp(q(-3, 1))]);
    assert_eq!(one(0x21, 0x23), vec![TrackImportEffect::PortamentoExtraFineDown(q(3, 1))]);
    assert_eq!(one(0x21, 0x33), vec![]);
    assert_eq!(one(0x0B, 0x33), vec![]);
}

#[test]
fn mod_xm_extended_commands() {
    let one = |p: u8| xm_effects(0x0E, p, LIN);
    assert_eq!(one(0x13), vec![TrackImportEffect::PortamentoFineUp(q(-12, 1))]);
    assert_eq!(one(0x10), vec![]);
    assert_eq!(one(0x23), vec![TrackImportEffect::PortamentoFineDown(q(12, 1))]);
    assert_eq!(one(0x20), vec![]);
    assert_eq!(one(0x30), vec![TrackImportEffect::Glissando(true)]);
    assert_eq!(one(0x41), vec![TrackImportEffect::VibratoWaveform(Waveform::RampDown, true)]);
    assert_eq!(one(0x46), vec![TrackImportEffect::VibratoWaveform(Waveform::Square, false)]);
    assert_eq!(one(0x43), vec![TrackImportEffect::VibratoWaveform(Waveform::Sine, true)]);
    assert_eq!(one(0x50), vec![TrackImportEffect::InstrumentFineTune(q(-1, 1))]);
    assert_eq!(one(0x5C), vec![TrackImportEffect::InstrumentFineTune(q(1, 2))]);
    assert_eq!(one(0x72), vec![TrackImportEffect::TremoloWaveform(Waveform::Square, true)]);
    assert_eq!(one(0x93), vec![TrackImportEffect::NoteRetrig(3)]);
    assert_eq!(one(0xA3), vec![TrackImportEffect::VolumeSlide0(q(3, 64))]);
    assert_eq!(one(0xB3), vec![TrackImportEffect::VolumeSlide0(q(-3, 64))]);
    assert_eq!(one(0xC3), vec![TrackImportEffect::NoteCut(3, false)]);
    assert_eq!(one(0xD3), vec![TrackImportEffect::NoteDelay(3)]);
    assert_eq!(one(0x83), vec![]);
}

#[test]
fn mod_xm_volume_column() {
    let first = |v: u8, f: FrequencyType| ModXmEffect::mod_xm_unpack(f, &vol(v)).effects;
    assert_eq!(first(0, LIN), vec![]);
    assert_eq!(first(1, LIN), vec![TrackImportEffect::Volume(q(241, 64), 0)]);
    assert_eq!(first(4, LIN), vec![TrackImportEffect::Volume(q(244, 64), 0)]);
    assert_eq!(first(5, LIN), vec![TrackImportEffect::Volume(q(229, 64), 0)]);
    assert_eq!(first(6, LIN), vec![TrackImportEffect::VolumeSlide0(q(-6, 64))]);
    assert_eq!(first(7, LIN), vec![TrackImportEffect::VolumeSlide0(q(7, 64))]);
    assert_eq!(first(8, LIN), vec![TrackImportEffect::VolumeSlideN(q(-8, 64))]);
    assert_eq!(first(9, LIN), vec![TrackImportEffect::VolumeSlideN(q(9, 64))]);
    assert_eq!(first(10, LIN), vec![TrackImportEffect::VibratoSpeed(q(10, 64))]);
    assert_eq!(first(11, LIN), vec![TrackImportEffect::VibratoDepthFxVol(q(11, 16))]);
    assert_eq!(first(12, LIN), vec![TrackImportEffect::ChannelPanning(q(12, 16))]);
    assert_eq!(first(13, LIN), vec![TrackImportEffect::ChannelPanningSlideN(q(-13, 16))]);
    assert_eq!(first(14, LIN), vec![TrackImportEffect::ChannelPanningSlideN(q(14, 16))]);
    assert_eq!(first(15, LIN), vec![TrackImportEffect::TonePortamentoFxVol(q(960, 1))]);
    assert_eq!(first(15, AMI), vec![TrackImportEffect::TonePortamentoFxVol(q(240, 1))]);
    assert_eq!(first(16, LIN), vec![]);
    assert_eq!(first(0x40, LIN), vec![]);
}

#[test]
fn mod_xm_global_effects() {
    let one = |t: u8, p: u8| ModXmEffect::mod_xm_unpack(LIN, &fx(t, p)).global_effects;
    assert_eq!(one(0x0B, 9), vec![GlobalEffect::PositionJump(9)]);
    assert_eq!(one(0x0D, 0x32), vec![GlobalEffect::PatternBreak(32)]);
    assert_eq!(one(0x0E, 0x63), vec![GlobalEffect::PatternLoop(3)]);
    assert_eq!(one(0x0E, 0xE3), vec![GlobalEffect::PatternDelay { quantity: 3, tempo: true }]);
    assert_eq!(one(0x0E, 0x13), vec![]);
    assert_eq!(one(0x0F, 31), vec![GlobalEffect::Speed(31)]);
    assert_eq!(one(0x0F, 32), vec![GlobalEffect::Bpm(32)]);
    assert_eq!(one(0x10, 0x20), vec![GlobalEffect::Volume(q(1, 1))]);
    assert_eq!(one(0x11, 0x03), vec![GlobalEffect::VolumeSlide { speed: q(-3, 64), fine: false }]);
    assert_eq!(one(0x11, 0x30), vec![GlobalEffect::VolumeSlide { speed: q(3, 64), fine: false }]);
    assert_eq!(one(0x11, 0x33), vec![]);
    assert_eq!(one(0x0A, 0x33), vec![]);
}

#[test]
fn mod_xm_row_and_pattern() {
    let row = vec![fx(0x0A, 0x04), fx(0x0F, 6)];
    let units = ModXmEffect::mod_xm_unpack_row(LIN, &row);
    assert_eq!(units.len(), 2);
    assert_eq!(units[0].effects, vec![TrackImportEffect::VolumeSlideN(q(-4, 64))]);
    assert_eq!(units[1].global_effects, vec![GlobalEffect::Speed(6)]);
    let pattern = ModXmEffect::mod_xm_unpack_pattern(LIN, &vec![row.clone(), vec![], row]);
    assert_eq!(pattern.len(), 3);
    assert_eq!(pattern[1].len(), 0);
    assert_eq!(pattern[2][0].effects, vec![TrackImportEffect::VolumeSlideN(q(-4, 64))]);
    let it = ItEffect::it_unpack_pattern(LIN, &vec![vec![fx(0x09, 0x35)]]);
    assert_eq!(
        it[0][0].effects,
        vec![TrackImportEffect::ChannelVolume(q(0, 1)), TrackImportEffect::Tremor(3, 5)]
    );
}

#[test]
fn track_unit_queries() {
    let mut u = TrackUnit::default();
    assert_eq!(u.note, Pitch::Empty);
    assert_eq!(u.velocity, q(1, 1));
    assert!(!u.has_arpeggio());
    assert!(!u.has_delay());
    assert_eq!(u.get_delay(), 0);
    assert!(!u.has_note_off());
    assert!(!u.has_tone_portamento());
    assert!(!u.has_vibrato());
    assert!(!u.has_volume_slide());
    u.effects = vec![
        TrackEffect::NoteDelay(3),
        TrackEffect::Arpeggio { half1: 1, half2: 2 },
        TrackEffect::NoteDelay(5),
        TrackEffect::TonePortamento(q(1, 1)),
        TrackEffect::Vibrato { speed: q(1, 64), depth: q(1, 16) },
        TrackEffect::VolumeSlide { speed: q(1, 64), fine: true },
    ];
    assert!(u.has_arpeggio());
    assert!(u.has_delay());
    assert_eq!(u.get_delay(), 3);
    assert!(u.has_tone_portamento());
    assert!(u.has_vibrato());
    assert!(u.has_volume_slide());
    assert!(!u.has_note_off());
    u.note = Pitch::KeyOff;
    assert!(u.has_note_off());
    u.note = Pitch::C4;
    u.effects = vec![TrackEffect::NoteOff { tick: 1, past: false }];
    assert!(u.has_note_off());
}
