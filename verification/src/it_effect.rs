use crate::amount::Amount;
use crate::effect::{GlobalEffect, MidiMacroType};
use crate::instr_default::NewNoteAction;
use crate::patternslot::PatternSlot;
use crate::period_helper::FrequencyType;
use crate::track_import_effect::{
    effects_view, hi, lemma_nibbles, lo, one_effect, option_seq, seq_or_empty, tone_portamento,
    tone_portamento_speed, two_effects, TrackImportEffect,
};
use crate::track_import_unit::{TrackImportUnit, TrackImportUnitView};
use crate::waveform::Waveform;
use vstd::prelude::*;

verus! {

/// The waveform that the two low bits of an IT parameter choose.
pub open spec fn it_waveform(param: int) -> Waveform {
    if param % 4 == 1 {
        Waveform::RampDown
    } else if param % 4 == 2 {
        Waveform::Square
    } else if param % 4 == 3 {
        Waveform::Random
    } else {
        Waveform::Sine
    }
}

/// The volume slide of an IT parameter. Both halves of the `Dxy` pair are
/// read from the low nibble: a low nibble of 0 gives a slide of 0 from tick
/// 1 on, a low nibble of 15 a fine slide down by 15/64, and another gives
/// none.
pub open spec fn spec_it_volume_slide(fx: u8) -> Option<TrackImportEffect> {
    if lo(fx) == 0 {
        Some(TrackImportEffect::VolumeSlideN(Amount::spec_ratio(0, 64)))
    } else if lo(fx) == 15 {
        Some(TrackImportEffect::VolumeSlide0(Amount::spec_ratio(-15, 64)))
    } else {
        None
    }
}

/// The volume slide of `Kxy` and `Lxy`: that of the parameter, or a slide
/// of 0 from tick 1 on where the parameter gives none.
pub open spec fn it_slide_or_zero(fx: u8) -> TrackImportEffect {
    match spec_it_volume_slide(fx) {
        Some(e) => e,
        None => TrackImportEffect::VolumeSlideN(Amount { raw: 0 }),
    }
}

/// The effects of the `S7x` commands of IT.
pub open spec fn it_special_7(param: int) -> Option<Seq<TrackImportEffect>> {
    if param == 0 {
        Some(seq![TrackImportEffect::NoteCut(0, true)])
    } else if param == 1 {
        Some(seq![TrackImportEffect::NoteOff(0, true)])
    } else if param == 2 {
        Some(seq![TrackImportEffect::NoteFadeOut(0, true)])
    } else if param == 3 {
        Some(seq![TrackImportEffect::InstrumentNewNoteAction(NewNoteAction::NoteCut)])
    } else if param == 4 {
        Some(seq![TrackImportEffect::InstrumentNewNoteAction(NewNoteAction::Continue)])
    } else if param == 5 {
        Some(seq![TrackImportEffect::InstrumentNewNoteAction(NewNoteAction::NoteOff)])
    } else if param == 6 {
        Some(seq![TrackImportEffect::InstrumentNewNoteAction(NewNoteAction::NoteFadeOut)])
    } else if param == 7 {
        Some(seq![TrackImportEffect::InstrumentVolumeEnvelope(true)])
    } else if param == 8 {
        Some(seq![TrackImportEffect::InstrumentVolumeEnvelope(false)])
    } else if param == 9 {
        Some(seq![TrackImportEffect::InstrumentPanningEnvelope(true)])
    } else if param == 10 {
        Some(seq![TrackImportEffect::InstrumentPanningEnvelope(false)])
    } else if param == 11 {
        Some(seq![TrackImportEffect::InstrumentPitchEnvelope(true)])
    } else if param == 12 {
        Some(seq![TrackImportEffect::InstrumentPitchEnvelope(false)])
    } else {
        None
    }
}

/// The effects of the `Sxy` commands of IT, by the command `x` and its
/// parameter `y`.
pub open spec fn it_special(fx: int, param: int) -> Option<Seq<TrackImportEffect>> {
    if fx == 3 {
        Some(seq![TrackImportEffect::VibratoWaveform(it_waveform(param), true)])
    } else if fx == 4 {
        Some(seq![TrackImportEffect::TremoloWaveform(it_waveform(param), true)])
    } else if fx == 5 {
        Some(seq![TrackImportEffect::PanbrelloWaveform(it_waveform(param), true)])
    } else if fx == 7 {
        it_special_7(param)
    } else if fx == 8 {
        Some(seq![TrackImportEffect::ChannelPanning(Amount::spec_ratio(param, 16))])
    } else if fx == 9 {
        Some(seq![TrackImportEffect::InstrumentSurround(param == 1)])
    } else if fx == 10 {
        Some(seq![TrackImportEffect::InstrumentSampleOffsetAddHigh((param * 65536) as usize)])
    } else if fx == 12 {
        Some(seq![TrackImportEffect::NoteCut(param as usize, false)])
    } else if fx == 13 {
        Some(seq![TrackImportEffect::NoteDelay(param as usize)])
    } else {
        None
    }
}

/// The track effects of the effect column of an IT cell, by its effect type
/// (1 for `A` to 26 for `Z`) and parameter; none where the command is no
/// track effect.
pub open spec fn spec_parse_it_effect(freq_type: FrequencyType, fx_type: u8, p: u8) -> Option<
    Seq<TrackImportEffect>,
> {
    let h = hi(p);
    let l = lo(p);
    if fx_type == 0x04 {
        match spec_it_volume_slide(p) {
            Some(e) => Some(seq![e]),
            None => None,
        }
    } else if fx_type == 0x05 {
        if h == 14 {
            Some(seq![TrackImportEffect::PortamentoExtraFineDown(Amount::spec_ratio(l, 1))])
        } else if h == 15 {
            Some(seq![TrackImportEffect::PortamentoFineDown(Amount::spec_ratio(4 * l, 1))])
        } else {
            Some(seq![TrackImportEffect::PortamentoDown(Amount::spec_ratio(4 * p, 1))])
        }
    } else if fx_type == 0x06 {
        if h == 14 {
            Some(seq![TrackImportEffect::PortamentoExtraFineUp(Amount::spec_ratio(-l, 1))])
        } else if h == 15 {
            Some(seq![TrackImportEffect::PortamentoFineUp(Amount::spec_ratio(-4 * l, 1))])
        } else {
            Some(seq![TrackImportEffect::PortamentoUp(Amount::spec_ratio(-4 * p, 1))])
        }
    } else if fx_type == 0x07 {
        Some(seq![TrackImportEffect::TonePortamento(tone_portamento_speed(freq_type, p as int))])
    } else if fx_type == 0x08 {
        Some(seq![TrackImportEffect::Vibrato(Amount::spec_ratio(h, 256), Amount::spec_ratio(l, 4))])
    } else if fx_type == 0x09 {
        Some(seq![TrackImportEffect::Tremor(h as usize, l as usize)])
    } else if fx_type == 0x0A {
        if p > 0 {
            Some(seq![TrackImportEffect::Arpeggio(h as usize, l as usize)])
        } else {
            None
        }
    } else if fx_type == 0x0B {
        Some(
            seq![
                TrackImportEffect::Vibrato(Amount { raw: 0 }, Amount { raw: 0 }),
                it_slide_or_zero(p),
            ],
        )
    } else if fx_type == 0x0C {
        Some(seq![TrackImportEffect::TonePortamento(Amount { raw: 0 }), it_slide_or_zero(p)])
    } else if fx_type == 0x0D {
        Some(
            seq![
                TrackImportEffect::ChannelVolume(
                    Amount::spec_ratio(if p > 64 { p as int } else { 64 }, 64),
                ),
            ],
        )
    } else if fx_type == 0x0E {
        if h == 0 {
            Some(seq![TrackImportEffect::ChannelVolumeSlideN(Amount::spec_ratio(-l, 64))])
        } else if l == 0 {
            Some(seq![TrackImportEffect::ChannelVolumeSlideN(Amount::spec_ratio(h, 64))])
        } else if h == 15 {
            Some(seq![TrackImportEffect::ChannelVolumeSlide0(Amount::spec_ratio(-l, 64))])
        } else if l == 15 {
            Some(seq![TrackImportEffect::ChannelVolumeSlide0(Amount::spec_ratio(h, 64))])
        } else {
            None
        }
    } else if fx_type == 0x0F {
        Some(seq![TrackImportEffect::InstrumentSampleOffset((p as int * 256) as usize)])
    } else if fx_type == 0x10 {
        if l == 0 {
            Some(seq![TrackImportEffect::ChannelPanningSlideN(Amount::spec_ratio(h, 16))])
        } else if h == 0 {
            Some(seq![TrackImportEffect::ChannelPanningSlideN(Amount::spec_ratio(-l, 16))])
        } else if l == 15 {
            Some(seq![TrackImportEffect::ChannelPanningSlide0(Amount::spec_ratio(h, 16))])
        } else {
            None
        }
    } else if fx_type == 0x11 {
        Some(seq![TrackImportEffect::NoteRetrigExtended(l as usize, h as usize)])
    } else if fx_type == 0x12 {
        Some(seq![TrackImportEffect::Tremolo(Amount::spec_ratio(h, 64), Amount::spec_ratio(l, 16))])
    } else if fx_type == 0x13 {
        it_special(h, l)
    } else if fx_type == 0x15 {
        Some(seq![TrackImportEffect::Vibrato(Amount::spec_ratio(h, 256), Amount::spec_ratio(l, 16))])
    } else if fx_type == 0x18 {
        Some(seq![TrackImportEffect::ChannelPanning(Amount::spec_ratio(p as int, 256))])
    } else if fx_type == 0x19 {
        Some(seq![TrackImportEffect::Panbrello(Amount::spec_ratio(h, 256), Amount::spec_ratio(l, 4))])
    } else {
        None
    }
}

/// The global effect of the effect column of an IT cell; none where the
/// command is no global effect.
pub open spec fn spec_parse_global_it_effect(fx_type: u8, p: u8) -> Option<GlobalEffect> {
    let h = hi(p);
    let l = lo(p);
    if fx_type == 0x01 {
        Some(GlobalEffect::Speed(p as usize))
    } else if fx_type == 0x02 {
        Some(GlobalEffect::PositionJump(p as usize))
    } else if fx_type == 0x03 {
        Some(GlobalEffect::PatternBreak((h * 10 + l) as usize))
    } else if fx_type == 0x13 {
        if h == 6 {
            Some(GlobalEffect::PatternDelay { quantity: l as usize, tempo: false })
        } else if h == 11 {
            Some(GlobalEffect::PatternLoop(l as usize))
        } else if h == 14 {
            Some(GlobalEffect::PatternDelay { quantity: l as usize, tempo: true })
        } else if h == 15 {
            Some(GlobalEffect::MidiMacro(MidiMacroType::Parametric(Some(l as usize))))
        } else {
            None
        }
    } else if fx_type == 0x14 {
        if h == 0 {
            Some(GlobalEffect::BpmSlide((-l) as isize))
        } else {
            Some(GlobalEffect::Bpm(p as usize))
        }
    } else if fx_type == 0x16 {
        Some(GlobalEffect::Volume(Amount::spec_ratio(if p > 64 { p as int } else { 64 }, 64)))
    } else if fx_type == 0x17 {
        if h == 0 {
            Some(GlobalEffect::VolumeSlide { speed: Amount::spec_ratio(-l, 64), fine: false })
        } else if l == 0 {
            Some(GlobalEffect::VolumeSlide { speed: Amount::spec_ratio(h, 64), fine: false })
        } else if l == 15 {
            Some(GlobalEffect::VolumeSlide { speed: Amount::spec_ratio(h, 64), fine: true })
        } else {
            None
        }
    } else if fx_type == 0x1A {
        if p < 128 {
            Some(GlobalEffect::MidiMacro(MidiMacroType::Parametric(None)))
        } else {
            Some(GlobalEffect::MidiMacro(MidiMacroType::Fixed((p - 128) as usize)))
        }
    } else {
        None
    }
}

/// The speed that the digit of a `Gx` of the volume column stands for.
pub open spec fn it_volume_portamento(digit: int) -> int {
    if digit == 1 {
        1
    } else if digit == 2 {
        4
    } else if digit == 3 {
        8
    } else if digit == 4 {
        16
    } else if digit == 5 {
        32
    } else if digit == 6 {
        64
    } else if digit == 7 {
        96
    } else if digit == 8 {
        128
    } else if digit == 9 {
        255
    } else {
        0
    }
}

/// The number that the volume byte of an IT cell gives once the volumes
/// (0 to 64) and the panning positions (128 to 192) are set aside: its tens
/// choose the command, its units are the parameter.
pub open spec fn it_volume_code(volume: u8) -> int {
    if volume < 128 {
        volume - 65
    } else {
        volume - 128 - 5
    }
}

/// The effect of the volume column of an IT cell.
pub open spec fn spec_parse_it_volume(freq_type: FrequencyType, volume: u8) -> Option<
    TrackImportEffect,
> {
    if volume <= 64 {
        Some(TrackImportEffect::ChannelVolume(Amount::spec_ratio(volume as int, 64)))
    } else if 128 <= volume <= 192 {
        Some(TrackImportEffect::ChannelPanning(Amount::spec_ratio(volume - 128, 64)))
    } else {
        let fx = it_volume_code(volume) / 10;
        let param = it_volume_code(volume) % 10;
        if fx == 0 {
            Some(TrackImportEffect::VolumeSlide0(Amount::spec_ratio(param, 16)))
        } else if fx == 1 {
            Some(TrackImportEffect::VolumeSlide0(Amount::spec_ratio(-param, 16)))
        } else if fx == 2 {
            Some(TrackImportEffect::VolumeSlideN(Amount::spec_ratio(param, 16)))
        } else if fx == 3 {
            Some(TrackImportEffect::VolumeSlideN(Amount::spec_ratio(-param, 16)))
        } else if fx == 4 {
            Some(TrackImportEffect::PortamentoDown(Amount::spec_ratio(-param, 16)))
        } else if fx == 5 {
            Some(TrackImportEffect::PortamentoUp(Amount::spec_ratio(param, 16)))
        } else if fx == 6 {
            Some(
                TrackImportEffect::TonePortamento(
                    tone_portamento_speed(freq_type, it_volume_portamento(param)),
                ),
            )
        } else if fx == 7 {
            Some(TrackImportEffect::Vibrato(Amount { raw: 0 }, Amount::spec_ratio(param, 4)))
        } else {
            None
        }
    }
}

/// The import unit of an IT cell: its note and instrument, the effect of the
/// volume column followed by those of the effect column, and the global
/// effect of the effect column.
pub open spec fn spec_it_unpack(freq_type: FrequencyType, slot: PatternSlot) -> TrackImportUnitView {
    TrackImportUnitView {
        note: slot.note,
        velocity: Amount { raw: crate::amount::AMOUNT_ONE },
        instrument: slot.instrument,
        effects: option_seq(spec_parse_it_volume(freq_type, slot.volume)) + seq_or_empty(
            spec_parse_it_effect(freq_type, slot.effect_type, slot.effect_parameter),
        ),
        global_effects: option_seq(
            spec_parse_global_it_effect(slot.effect_type, slot.effect_parameter),
        ),
    }
}

/// The import units of the cells of a row.
pub open spec fn spec_it_unpack_row(freq_type: FrequencyType, row: Seq<PatternSlot>) -> Seq<
    TrackImportUnitView,
> {
    row.map_values(|slot: PatternSlot| spec_it_unpack(freq_type, slot))
}

/// The import units of the cells of a pattern.
pub open spec fn spec_it_unpack_pattern(freq_type: FrequencyType, pattern: Seq<Seq<PatternSlot>>) -> Seq<
    Seq<TrackImportUnitView>,
> {
    pattern.map_values(|row: Seq<PatternSlot>| spec_it_unpack_row(freq_type, row))
}

/// Decoder of the effect and volume columns of IT cells.
pub struct ItEffect;

impl ItEffect {
    fn it_volume_slide(fx: u8) -> (r: Option<TrackImportEffect>)
        ensures
            r == spec_it_volume_slide(fx),
    {
        proof {
            lemma_nibbles(fx);
        }
        let nibble_low: u8 = fx & 0x0F;
        if nibble_low == 0 {
            Some(TrackImportEffect::VolumeSlideN(Amount::ratio(0, 64)))
        } else if nibble_low == 0xF {
            Some(TrackImportEffect::VolumeSlide0(Amount::ratio(-(nibble_low as i32), 64)))
        } else {
            None
        }
    }

    fn it_waveform_of(param: u8) -> (r: Waveform)
        ensures
            r == it_waveform(param as int),
    {
        assert((param & 0b0000_0011) == param % 4) by (bit_vector);
        let w: u8 = param & 0b0000_0011;
        if w == 1 {
            Waveform::RampDown
        } else if w == 2 {
            Waveform::Square
        } else if w == 3 {
            Waveform::Random
        } else {
            Waveform::Sine
        }
    }

    fn it_special_commands(fx: u8, param: u8) -> (r: Option<Vec<TrackImportEffect>>)
        requires
            fx < 16,
            param < 16,
        ensures
            effects_view(r) == it_special(fx as int, param as int),
    {
        match fx {
            0x3 => one_effect(TrackImportEffect::VibratoWaveform(Self::it_waveform_of(param), true)),
            0x4 => one_effect(TrackImportEffect::TremoloWaveform(Self::it_waveform_of(param), true)),
            0x5 => one_effect(
                TrackImportEffect::PanbrelloWaveform(Self::it_waveform_of(param), true),
            ),
            0x7 => {
                match param {
                    0x0 => one_effect(TrackImportEffect::NoteCut(0, true)),
                    0x1 => one_effect(TrackImportEffect::NoteOff(0, true)),
                    0x2 => one_effect(TrackImportEffect::NoteFadeOut(0, true)),
                    0x3 => one_effect(
                        TrackImportEffect::InstrumentNewNoteAction(NewNoteAction::NoteCut),
                    ),
                    0x4 => one_effect(
                        TrackImportEffect::InstrumentNewNoteAction(NewNoteAction::Continue),
                    ),
                    0x5 => one_effect(
                        TrackImportEffect::InstrumentNewNoteAction(NewNoteAction::NoteOff),
                    ),
                    0x6 => one_effect(
                        TrackImportEffect::InstrumentNewNoteAction(NewNoteAction::NoteFadeOut),
                    ),
                    0x7 => one_effect(TrackImportEffect::InstrumentVolumeEnvelope(true)),
                    0x8 => one_effect(TrackImportEffect::InstrumentVolumeEnvelope(false)),
                    0x9 => one_effect(TrackImportEffect::InstrumentPanningEnvelope(true)),
                    0xA => one_effect(TrackImportEffect::InstrumentPanningEnvelope(false)),
                    0xB => one_effect(TrackImportEffect::InstrumentPitchEnvelope(true)),
                    0xC => one_effect(TrackImportEffect::InstrumentPitchEnvelope(false)),
                    _ => None,
                }
            },
            0x8 => one_effect(TrackImportEffect::ChannelPanning(Amount::ratio(param as i32, 16))),
            0x9 => one_effect(TrackImportEffect::InstrumentSurround(param == 1)),
            0xA => one_effect(
                TrackImportEffect::InstrumentSampleOffsetAddHigh((param as usize) * 65536),
            ),
            0xC => one_effect(TrackImportEffect::NoteCut(param as usize, false)),
            0xD => one_effect(TrackImportEffect::NoteDelay(param as usize)),
            _ => None,
        }
    }

    /// Reads the effect column of an IT cell as track effects.
    pub fn parse_it_effect(freq_type: FrequencyType, current: &PatternSlot) -> (r: Option<
        Vec<TrackImportEffect>,
    >)
        ensures
            effects_view(r) == spec_parse_it_effect(
                freq_type,
                current.effect_type,
                current.effect_parameter,
            ),
    {
        let fx: u8 = current.effect_parameter;
        proof {
            lemma_nibbles(fx);
        }
        let nibble_high: u8 = (fx & 0xF0) >> 4;
        let nibble_low: u8 = fx & 0x0F;
        match current.effect_type {
            // Dxy: volume slide
            0x04 => {
                match Self::it_volume_slide(fx) {
                    Some(tie) => one_effect(tie),
                    None => None,
                }
            },
            // Exy: pitch slide down, fine with EFx, extra fine with EEx
            0x05 => {
                if nibble_high == 0xE {
                    one_effect(
                        TrackImportEffect::PortamentoExtraFineDown(
                            Amount::ratio(nibble_low as i32, 1),
                        ),
                    )
                } else if nibble_high == 0xF {
                    one_effect(
                        TrackImportEffect::PortamentoFineDown(
                            Amount::ratio(4 * (nibble_low as i32), 1),
                        ),
                    )
                } else {
                    one_effect(TrackImportEffect::PortamentoDown(Amount::ratio(4 * (fx as i32), 1)))
                }
            },
            // Fxy: pitch slide up, fine with FFx, extra fine with FEx
            0x06 => {
                if nibble_high == 0xE {
                    one_effect(
                        TrackImportEffect::PortamentoExtraFineUp(
                            Amount::ratio(-(nibble_low as i32), 1),
                        ),
                    )
                } else if nibble_high == 0xF {
                    one_effect(
                        TrackImportEffect::PortamentoFineUp(
                            Amount::ratio(-4 * (nibble_low as i32), 1),
                        ),
                    )
                } else {
                    one_effect(TrackImportEffect::PortamentoUp(Amount::ratio(-4 * (fx as i32), 1)))
                }
            },
            // Gxx: slide to note
            0x07 => one_effect(TrackImportEffect::TonePortamento(tone_portamento(freq_type, fx))),
            // Hxy: vibrato
            0x08 => one_effect(
                TrackImportEffect::Vibrato(
                    Amount::ratio(nibble_high as i32, 256),
                    Amount::ratio(nibble_low as i32, 4),
                ),
            ),
            // Ixy: tremor
            0x09 => one_effect(TrackImportEffect::Tremor(nibble_high as usize, nibble_low as usize)),
            // Jxy: arpeggio
            0x0A => {
                if fx > 0 {
                    one_effect(
                        TrackImportEffect::Arpeggio(nibble_high as usize, nibble_low as usize),
                    )
                } else {
                    None
                }
            },
            // Kxy: vibrato with the last values, and volume slide
            0x0B => {
                let slide = match Self::it_volume_slide(fx) {
                    Some(vste) => vste,
                    None => TrackImportEffect::VolumeSlideN(Amount::zero()),
                };
                two_effects(TrackImportEffect::Vibrato(Amount::zero(), Amount::zero()), slide)
            },
            // Lxy: slide to note with the last value, and volume slide
            0x0C => {
                let slide = match Self::it_volume_slide(fx) {
                    Some(vste) => vste,
                    None => TrackImportEffect::VolumeSlideN(Amount::zero()),
                };
                two_effects(TrackImportEffect::TonePortamento(Amount::zero()), slide)
            },
            // Mxx: channel volume
            0x0D => {
                let v: u8 = if fx > 64 {
                    fx
                } else {
                    64
                };
                one_effect(TrackImportEffect::ChannelVolume(Amount::ratio(v as i32, 64)))
            },
            // Nxy: channel volume slide
            0x0E => {
                if nibble_high == 0 {
                    one_effect(
                        TrackImportEffect::ChannelVolumeSlideN(
                            Amount::ratio(-(nibble_low as i32), 64),
                        ),
                    )
                } else if nibble_low == 0 {
                    one_effect(
                        TrackImportEffect::ChannelVolumeSlideN(
                            Amount::ratio(nibble_high as i32, 64),
                        ),
                    )
                } else if nibble_high == 0xF {
                    one_effect(
                        TrackImportEffect::ChannelVolumeSlide0(
                            Amount::ratio(-(nibble_low as i32), 64),
                        ),
                    )
                } else if nibble_low == 0xF {
                    one_effect(
                        TrackImportEffect::ChannelVolumeSlide0(
                            Amount::ratio(nibble_high as i32, 64),
                        ),
                    )
                } else {
                    None
                }
            },
            // Oxx: sample offset
            0x0F => one_effect(TrackImportEffect::InstrumentSampleOffset((fx as usize) * 256)),
            // Pxy: panning slide
            0x10 => {
                let upper_nibble: u8 = fx & 0xF0;
                if nibble_low == 0 {
                    one_effect(
                        TrackImportEffect::ChannelPanningSlideN(
                            Amount::ratio((upper_nibble >> 4) as i32, 16),
                        ),
                    )
                } else if upper_nibble == 0 {
                    one_effect(
                        TrackImportEffect::ChannelPanningSlideN(
                            Amount::ratio(-(nibble_low as i32), 16),
                        ),
                    )
                } else if nibble_low == 0xF {
                    one_effect(
                        TrackImportEffect::ChannelPanningSlide0(
                            Amount::ratio((upper_nibble >> 4) as i32, 16),
                        ),
                    )
                } else {
                    None
                }
            },
            // Qxy: retrigger every y ticks with the volume change x
            0x11 => one_effect(
                TrackImportEffect::NoteRetrigExtended(nibble_low as usize, (fx >> 4) as usize),
            ),
            // Rxy: tremolo
            0x12 => one_effect(
                TrackImportEffect::Tremolo(
                    Amount::ratio(nibble_high as i32, 64),
                    Amount::ratio(nibble_low as i32, 16),
                ),
            ),
            // Sxy: special commands
            0x13 => Self::it_special_commands(fx >> 4, fx & 0xF),
            // Uxy: fine vibrato
            0x15 => one_effect(
                TrackImportEffect::Vibrato(
                    Amount::ratio(nibble_high as i32, 256),
                    Amount::ratio(nibble_low as i32, 16),
                ),
            ),
            // Xxx: panning position
            0x18 => one_effect(TrackImportEffect::ChannelPanning(Amount::ratio(fx as i32, 256))),
            // Yxy: panbrello
            0x19 => one_effect(
                TrackImportEffect::Panbrello(
                    Amount::ratio(nibble_high as i32, 256),
                    Amount::ratio(nibble_low as i32, 4),
                ),
            ),
            _ => None,
        }
    }

    /// Reads the effect column of an IT cell as a global effect.
    pub fn parse_global_it_effect(current: &PatternSlot) -> (r: Option<GlobalEffect>)
        ensures
            r == spec_parse_global_it_effect(current.effect_type, current.effect_parameter),
    {
        let param: u8 = current.effect_parameter;
        proof {
            lemma_nibbles(param);
            assert((param & 0x80 == 0) == (param < 128)) by (bit_vector);
        }
        let upper_nibble: u8 = param & 0xF0;
        let lower_nibble: u8 = param & 0x0F;
        match current.effect_type {
            // Axx: song speed
            0x01 => Some(GlobalEffect::Speed(param as usize)),
            // Bxx: jump to order
            0x02 => Some(GlobalEffect::PositionJump(param as usize)),
            // Cxx: break to row, in decimal digits
            0x03 => {
                let ten: usize = ((param >> 4) as usize) * 10;
                let unit: usize = lower_nibble as usize;
                Some(GlobalEffect::PatternBreak(ten + unit))
            },
            // Sxy: special commands
            0x13 => {
                match param >> 4 {
                    0x6 => Some(
                        GlobalEffect::PatternDelay { quantity: lower_nibble as usize, tempo: false },
                    ),
                    0xB => Some(GlobalEffect::PatternLoop(lower_nibble as usize)),
                    0xE => Some(
                        GlobalEffect::PatternDelay { quantity: lower_nibble as usize, tempo: true },
                    ),
                    0xF => Some(
                        GlobalEffect::MidiMacro(
                            MidiMacroType::Parametric(Some(lower_nibble as usize)),
                        ),
                    ),
                    _ => None,
                }
            },
            // Txx: tempo, T0x slides it down
            0x14 => {
                if upper_nibble == 0 {
                    Some(GlobalEffect::BpmSlide(-(lower_nibble as isize)))
                } else {
                    Some(GlobalEffect::Bpm(param as usize))
                }
            },
            // Vxx: global volume
            0x16 => {
                let v: u8 = if param > 64 {
                    param
                } else {
                    64
                };
                Some(GlobalEffect::Volume(Amount::ratio(v as i32, 64)))
            },
            // Wxy: global volume slide
            0x17 => {
                if upper_nibble == 0 {
                    Some(
                        GlobalEffect::VolumeSlide {
                            speed: Amount::ratio(-(lower_nibble as i32), 64),
                            fine: false,
                        },
                    )
                } else if lower_nibble == 0 {
                    Some(
                        GlobalEffect::VolumeSlide {
                            speed: Amount::ratio((upper_nibble >> 4) as i32, 64),
                            fine: false,
                        },
                    )
                } else if lower_nibble == 0xF {
                    Some(
                        GlobalEffect::VolumeSlide {
                            speed: Amount::ratio((upper_nibble >> 4) as i32, 64),
                            fine: true,
                        },
                    )
                } else {
                    None
                }
            },
            // Zxx: MIDI macro
            0x1A => {
                if param & 0x80 == 0 {
                    Some(GlobalEffect::MidiMacro(MidiMacroType::Parametric(None)))
                } else {
                    Some(GlobalEffect::MidiMacro(MidiMacroType::Fixed((param as usize) - 0x80)))
                }
            },
            _ => None,
        }
    }

    fn parse_it_volume(freq_type: FrequencyType, slot: &PatternSlot) -> (r: Option<
        TrackImportEffect,
    >)
        ensures
            r == spec_parse_it_volume(freq_type, slot.volume),
    {
        let volume: u8 = slot.volume;
        proof {
            assert((volume & 0x7F) == volume % 128) by (bit_vector);
            assert((volume & 0x80 == 0) == (volume < 128)) by (bit_vector);
        }
        // vxx: volume
        if volume <= 64 {
            return Some(TrackImportEffect::ChannelVolume(Amount::ratio(volume as i32, 64)));
        }
        // pxx: panning

        if (volume & 0x7F) <= 64 {
            return Some(
                TrackImportEffect::ChannelPanning(Amount::ratio((volume & 0x7F) as i32, 64)),
            );
        }
        let temp: u8 = if volume & 0x80 == 0 {
            // the letters A to F, ten values each
            volume - 65
        } else {
            // G and H
            (volume & 0x7F) - 5
        };
        let fx: u8 = temp / 10;
        let param: u8 = temp % 10;
        match fx {
            // a0x: fine volume slide up
            0x0 => Some(TrackImportEffect::VolumeSlide0(Amount::ratio(param as i32, 16))),
            // b0x: fine volume slide down
            0x1 => Some(TrackImportEffect::VolumeSlide0(Amount::ratio(-(param as i32), 16))),
            // c0x: volume slide up
            0x2 => Some(TrackImportEffect::VolumeSlideN(Amount::ratio(param as i32, 16))),
            // d0x: volume slide down
            0x3 => Some(TrackImportEffect::VolumeSlideN(Amount::ratio(-(param as i32), 16))),
            // e0x: pitch slide down
            0x4 => Some(TrackImportEffect::PortamentoDown(Amount::ratio(-(param as i32), 16))),
            // f0x: pitch slide up
            0x5 => Some(TrackImportEffect::PortamentoUp(Amount::ratio(param as i32, 16))),
            // g0x: slide to note
            0x6 => {
                let speed: u8 = match param {
                    1 => 1,
                    2 => 4,
                    3 => 8,
                    4 => 16,
                    5 => 32,
                    6 => 64,
                    7 => 96,
                    8 => 128,
                    9 => 255,
                    _ => 0,
                };
                Some(TrackImportEffect::TonePortamento(tone_portamento(freq_type, speed)))
            },
            // h0x: vibrato depth
            0x7 => {
                assert(param < 10 ==> (param & 0x0F) == param) by (bit_vector);
                Some(
                    TrackImportEffect::Vibrato(
                        Amount::zero(),
                        Amount::ratio((param & 0x0F) as i32, 4),
                    ),
                )
            },
            _ => None,
        }
    }

    /// Reads one IT cell as a track import unit.
    pub fn it_unpack(freq_type: FrequencyType, slot: &PatternSlot) -> (r: TrackImportUnit)
        ensures
            r@ == spec_it_unpack(freq_type, *slot),
    {
        let te = Self::parse_it_effect(freq_type, slot);
        let ve = Self::parse_it_volume(freq_type, slot);
        let cc = Self::parse_global_it_effect(slot);
        let mut tiu = TrackImportUnit::default();
        tiu.note = slot.note;
        tiu.instrument = slot.instrument;
        match ve {
            Some(e) => {
                tiu.effects.push(e);
            },
            None => {},
        }
        match te {
            Some(v) => {
                let mut i: usize = 0;
                let ghost before = tiu.effects@;
                while i < v.len()
                    invariant
                        0 <= i <= v.len(),
                        tiu.effects@ == before + v@.take(i as int),
                        tiu.note == slot.note,
                        tiu.instrument == slot.instrument,
                        tiu.velocity == (Amount { raw: crate::amount::AMOUNT_ONE }),
                        tiu.global_effects@ == Seq::<GlobalEffect>::empty(),
                    decreases v.len() - i,
                {
                    tiu.effects.push(v[i]);
                    assert(v@.take(i + 1) == v@.take(i as int).push(v@[i as int]));
                    i += 1;
                }
                assert(v@.take(v.len() as int) == v@);
            },
            None => {
                assert(tiu.effects@ + Seq::<TrackImportEffect>::empty() == tiu.effects@);
            },
        }
        match cc {
            Some(c) => {
                tiu.global_effects.push(c);
            },
            None => {},
        }
        assert(tiu@.effects == spec_it_unpack(freq_type, *slot).effects);
        assert(tiu@.global_effects == spec_it_unpack(freq_type, *slot).global_effects);
        tiu
    }

    fn it_unpack_row(freq_type: FrequencyType, row: &Vec<PatternSlot>) -> (r: Vec<TrackImportUnit>)
        ensures
            r.deep_view() == spec_it_unpack_row(freq_type, row@),
    {
        let mut out: Vec<TrackImportUnit> = Vec::new();
        let mut i: usize = 0;
        while i < row.len()
            invariant
                0 <= i <= row.len(),
                out@.len() == i,
                forall|k: int|
                    0 <= k < i ==> (#[trigger] out@[k])@ == spec_it_unpack(freq_type, row@[k]),
            decreases row.len() - i,
        {
            out.push(Self::it_unpack(freq_type, &row[i]));
            i += 1;
        }
        assert(out.deep_view() =~= spec_it_unpack_row(freq_type, row@));
        out
    }

    /// Reads the cells of a pattern as track import units.
    pub fn it_unpack_pattern(freq_type: FrequencyType, pattern: &Vec<Vec<PatternSlot>>) -> (r: Vec<
        Vec<TrackImportUnit>,
    >)
        ensures
            r.deep_view() == spec_it_unpack_pattern(freq_type, pattern.deep_view()),
    {
        let mut out: Vec<Vec<TrackImportUnit>> = Vec::new();
        let mut i: usize = 0;
        while i < pattern.len()
            invariant
                0 <= i <= pattern.len(),
                out@.len() == i,
                forall|k: int|
                    0 <= k < i ==> (#[trigger] out@[k]).deep_view() == spec_it_unpack_row(
                        freq_type,
                        pattern@[k]@,
                    ),
            decreases pattern.len() - i,
        {
            out.push(Self::it_unpack_row(freq_type, &pattern[i]));
            i += 1;
        }
        proof {
            assert forall|k: int| 0 <= k < pattern@.len() implies (
            #[trigger] pattern.deep_view()[k]) == pattern@[k]@ by {
                assert(pattern@[k].deep_view() =~= pattern@[k]@);
            }
            assert(out.deep_view() =~= spec_it_unpack_pattern(freq_type, pattern.deep_view()));
        }
        out
    }
}

} // verus!
