use crate::amount::Amount;
use crate::effect::GlobalEffect;
use crate::patternslot::PatternSlot;
use crate::period_helper::FrequencyType;
use crate::track_import_effect::{
    effects_view, hi, lemma_nibbles, lo, one_effect, option_seq, seq_or_empty, tone_portamento,
    tone_portamento_speed, two_effects, TrackImportEffect,
};
use crate::track_import_unit::{TrackImportUnit, TrackImportUnitView};
use crate::waveform::Waveform;
use vstd::prelude::*;

verus! {

/// The speed of the volume slide of a MOD or XM parameter: up by the high
/// nibble where the low one is 0, down by the low nibble where the high one
/// is 0, in sixty-fourths; none where both are set.
pub open spec fn spec_mod_xm_volume_slide(param: u8) -> Option<Amount> {
    if lo(param) == 0 {
        Some(Amount::spec_ratio(hi(param), 64))
    } else if hi(param) == 0 {
        Some(Amount::spec_ratio(-lo(param), 64))
    } else {
        None
    }
}

/// The volume slide of the commands 5 and 6: that of the parameter, or 0.
pub open spec fn mod_xm_slide_or_zero(param: u8) -> Amount {
    match spec_mod_xm_volume_slide(param) {
        Some(a) => a,
        None => Amount { raw: 0 },
    }
}

/// The waveform that the two low bits of a MOD or XM parameter choose.
pub open spec fn mod_xm_waveform(param: int) -> Waveform {
    if param % 4 == 1 {
        Waveform::RampDown
    } else if param % 4 == 2 {
        Waveform::Square
    } else {
        Waveform::Sine
    }
}

/// The effects of the extended commands `Exy`, by the command `x` and its
/// parameter `y`.
pub open spec fn mod_xm_extended(fx: int, param: int) -> Option<Seq<TrackImportEffect>> {
    if fx == 1 {
        if param != 0 {
            Some(seq![TrackImportEffect::PortamentoFineUp(Amount::spec_ratio(-4 * param, 1))])
        } else {
            None
        }
    } else if fx == 2 {
        if param != 0 {
            Some(seq![TrackImportEffect::PortamentoFineDown(Amount::spec_ratio(4 * param, 1))])
        } else {
            None
        }
    } else if fx == 3 {
        Some(seq![TrackImportEffect::Glissando(true)])
    } else if fx == 4 {
        Some(seq![TrackImportEffect::VibratoWaveform(mod_xm_waveform(param), param % 8 < 4)])
    } else if fx == 5 {
        Some(seq![TrackImportEffect::InstrumentFineTune(Amount::spec_ratio(param - 8, 8))])
    } else if fx == 7 {
        Some(seq![TrackImportEffect::TremoloWaveform(mod_xm_waveform(param), param % 8 < 4)])
    } else if fx == 9 {
        Some(seq![TrackImportEffect::NoteRetrig(param as usize)])
    } else if fx == 10 {
        Some(seq![TrackImportEffect::VolumeSlide0(Amount::spec_ratio(param, 64))])
    } else if fx == 11 {
        Some(seq![TrackImportEffect::VolumeSlide0(Amount::spec_ratio(-param, 64))])
    } else if fx == 12 {
        Some(seq![TrackImportEffect::NoteCut(param as usize, false)])
    } else if fx == 13 {
        Some(seq![TrackImportEffect::NoteDelay(param as usize)])
    } else {
        None
    }
}

/// The track effects of the effect column of a MOD or XM cell, by its effect
/// type and parameter; none where the command is no track effect.
pub open spec fn spec_mod_xm_walk_effect(freq_type: FrequencyType, fx_type: u8, p: u8) -> Option<
    Seq<TrackImportEffect>,
> {
    let h = hi(p);
    let l = lo(p);
    if fx_type == 0x00 {
        if p > 0 {
            Some(seq![TrackImportEffect::Arpeggio(h as usize, l as usize)])
        } else {
            None
        }
    } else if fx_type == 0x01 {
        Some(seq![TrackImportEffect::PortamentoUp(Amount::spec_ratio(-4 * p, 1))])
    } else if fx_type == 0x02 {
        Some(seq![TrackImportEffect::PortamentoDown(Amount::spec_ratio(4 * p, 1))])
    } else if fx_type == 0x03 {
        Some(seq![TrackImportEffect::TonePortamento(tone_portamento_speed(freq_type, p as int))])
    } else if fx_type == 0x04 {
        Some(seq![TrackImportEffect::Vibrato(Amount::spec_ratio(h, 64), Amount::spec_ratio(l, 16))])
    } else if fx_type == 0x05 {
        Some(
            seq![
                TrackImportEffect::TonePortamento(Amount { raw: 0 }),
                TrackImportEffect::VolumeSlideN(mod_xm_slide_or_zero(p)),
            ],
        )
    } else if fx_type == 0x06 {
        Some(
            seq![
                TrackImportEffect::Vibrato(Amount { raw: 0 }, Amount { raw: 0 }),
                TrackImportEffect::VolumeSlideN(mod_xm_slide_or_zero(p)),
            ],
        )
    } else if fx_type == 0x07 {
        Some(seq![TrackImportEffect::Tremolo(Amount::spec_ratio(h, 64), Amount::spec_ratio(l, 16))])
    } else if fx_type == 0x08 {
        Some(seq![TrackImportEffect::ChannelPanning(Amount::spec_ratio(p as int, 255))])
    } else if fx_type == 0x09 {
        Some(seq![TrackImportEffect::InstrumentSampleOffset((p as int * 256) as usize)])
    } else if fx_type == 0x0A {
        match spec_mod_xm_volume_slide(p) {
            Some(a) => Some(seq![TrackImportEffect::VolumeSlideN(a)]),
            None => None,
        }
    } else if fx_type == 0x0C {
        Some(
            seq![
                TrackImportEffect::Volume(
                    Amount::spec_ratio(if p > 64 { p as int } else { 64 }, 64),
                    0,
                ),
            ],
        )
    } else if fx_type == 0x0E {
        mod_xm_extended(h, l)
    } else if fx_type == 0x14 {
        Some(seq![TrackImportEffect::NoteOff(p as usize, false)])
    } else if fx_type == 0x15 {
        Some(seq![TrackImportEffect::InstrumentVolumeEnvelopePosition(p as usize)])
    } else if fx_type == 0x19 {
        if l == 0 {
            Some(seq![TrackImportEffect::ChannelPanningSlideN(Amount::spec_ratio(h, 16))])
        } else if h == 0 {
            Some(seq![TrackImportEffect::ChannelPanningSlideN(Amount::spec_ratio(-l, 16))])
        } else {
            None
        }
    } else if fx_type == 0x1B {
        Some(seq![TrackImportEffect::NoteRetrigExtended(l as usize, h as usize)])
    } else if fx_type == 0x1D {
        Some(seq![TrackImportEffect::Tremor(h as usize, l as usize)])
    } else if fx_type == 0x21 {
        if h == 1 {
            Some(seq![TrackImportEffect::PortamentoExtraFineUp(Amount::spec_ratio(-l, 1))])
        } else if h == 2 {
            Some(seq![TrackImportEffect::PortamentoExtraFineDown(Amount::spec_ratio(l, 1))])
        } else {
            None
        }
    } else {
        None
    }
}

/// The effect of the volume column of a MOD or XM cell. The command is
/// chosen by the whole byte, 1 to 15; the volumes of the bytes 1 to 5 are
/// the byte less 16 (1 to 4) or less 32 (5), taken modulo 256.
pub open spec fn spec_mod_xm_walk_volume(freq_type: FrequencyType, volume: u8) -> Option<
    TrackImportEffect,
> {
    let v = volume as int;
    if 1 <= v <= 4 {
        Some(TrackImportEffect::Volume(Amount::spec_ratio(v + 240, 64), 0))
    } else if v == 5 {
        Some(TrackImportEffect::Volume(Amount::spec_ratio(229, 64), 0))
    } else if v == 6 {
        Some(TrackImportEffect::VolumeSlide0(Amount::spec_ratio(-6, 64)))
    } else if v == 7 {
        Some(TrackImportEffect::VolumeSlide0(Amount::spec_ratio(7, 64)))
    } else if v == 8 {
        Some(TrackImportEffect::VolumeSlideN(Amount::spec_ratio(-8, 64)))
    } else if v == 9 {
        Some(TrackImportEffect::VolumeSlideN(Amount::spec_ratio(9, 64)))
    } else if v == 10 {
        Some(TrackImportEffect::VibratoSpeed(Amount::spec_ratio(10, 64)))
    } else if v == 11 {
        Some(TrackImportEffect::VibratoDepthFxVol(Amount::spec_ratio(11, 16)))
    } else if v == 12 {
        Some(TrackImportEffect::ChannelPanning(Amount::spec_ratio(12, 16)))
    } else if v == 13 {
        Some(TrackImportEffect::ChannelPanningSlideN(Amount::spec_ratio(-13, 16)))
    } else if v == 14 {
        Some(TrackImportEffect::ChannelPanningSlideN(Amount::spec_ratio(14, 16)))
    } else if v == 15 {
        Some(
            TrackImportEffect::TonePortamentoFxVol(
                match freq_type {
                    FrequencyType::LinearFrequencies => Amount::spec_ratio(960, 1),
                    FrequencyType::AmigaFrequencies => Amount::spec_ratio(240, 1),
                },
            ),
        )
    } else {
        None
    }
}

/// The global effect of the effect column of a MOD or XM cell; none where
/// the command is no global effect.
pub open spec fn spec_mod_xm_walk_global_effect(fx_type: u8, p: u8) -> Option<GlobalEffect> {
    let h = hi(p);
    let l = lo(p);
    if fx_type == 0x0B {
        Some(GlobalEffect::PositionJump(p as usize))
    } else if fx_type == 0x0D {
        Some(GlobalEffect::PatternBreak((h * 10 + l) as usize))
    } else if fx_type == 0x0E {
        if h == 6 {
            Some(GlobalEffect::PatternLoop(l as usize))
        } else if h == 14 {
            Some(GlobalEffect::PatternDelay { quantity: l as usize, tempo: true })
        } else {
            None
        }
    } else if fx_type == 0x0F {
        if p < 32 {
            Some(GlobalEffect::Speed(p as usize))
        } else {
            Some(GlobalEffect::Bpm(p as usize))
        }
    } else if fx_type == 0x10 {
        Some(GlobalEffect::Volume(Amount::spec_ratio(if p > 64 { p as int } else { 64 }, 64)))
    } else if fx_type == 0x11 {
        if h == 0 {
            Some(GlobalEffect::VolumeSlide { speed: Amount::spec_ratio(-l, 64), fine: false })
        } else if l == 0 {
            Some(GlobalEffect::VolumeSlide { speed: Amount::spec_ratio(h, 64), fine: false })
        } else {
            None
        }
    } else {
        None
    }
}

/// The import unit of a MOD or XM cell: its note and instrument, the effect
/// of the volume column followed by those of the effect column, and the
/// global effect of the effect column.
pub open spec fn spec_mod_xm_unpack(freq_type: FrequencyType, slot: PatternSlot) -> TrackImportUnitView {
    TrackImportUnitView {
        note: slot.note,
        velocity: Amount { raw: crate::amount::AMOUNT_ONE },
        instrument: slot.instrument,
        effects: option_seq(spec_mod_xm_walk_volume(freq_type, slot.volume)) + seq_or_empty(
            spec_mod_xm_walk_effect(freq_type, slot.effect_type, slot.effect_parameter),
        ),
        global_effects: option_seq(
            spec_mod_xm_walk_global_effect(slot.effect_type, slot.effect_parameter),
        ),
    }
}

/// The import units of the cells of a row.
pub open spec fn spec_mod_xm_unpack_row(freq_type: FrequencyType, row: Seq<PatternSlot>) -> Seq<
    TrackImportUnitView,
> {
    row.map_values(|slot: PatternSlot| spec_mod_xm_unpack(freq_type, slot))
}

/// The import units of the cells of a pattern.
pub open spec fn spec_mod_xm_unpack_pattern(
    freq_type: FrequencyType,
    pattern: Seq<Seq<PatternSlot>>,
) -> Seq<Seq<TrackImportUnitView>> {
    pattern.map_values(|row: Seq<PatternSlot>| spec_mod_xm_unpack_row(freq_type, row))
}

/// Decoder of the effect and volume columns of MOD and XM cells.
pub struct ModXmEffect;

impl ModXmEffect {
    fn mod_xm_volume_slide(param: u8) -> (r: Option<Amount>)
        ensures
            r == spec_mod_xm_volume_slide(param),
    {
        proof {
            lemma_nibbles(param);
        }
        let upper_nibble: u8 = param & 0xF0;
        let lower_nibble: u8 = param & 0x0F;
        if lower_nibble == 0 {
            // slide up
            Some(Amount::ratio((upper_nibble >> 4) as i32, 64))
        } else if upper_nibble == 0 {
            // slide down
            Some(Amount::ratio(-(lower_nibble as i32), 64))
        } else {
            None
        }
    }

    fn mod_xm_waveform_of(param: u8) -> (r: (Waveform, bool))
        requires
            param < 16,
        ensures
            r.0 == mod_xm_waveform(param as int),
            r.1 == (param as int % 8 < 4),
    {
        assert((param & 0b0000_0011) == param % 4) by (bit_vector);
        assert(((param & 0b0000_0100) == 0) == (param % 8 < 4)) by (bit_vector);
        let w: u8 = param & 0b0000_0011;
        let waveform = if w == 1 {
            Waveform::RampDown
        } else if w == 2 {
            Waveform::Square
        } else {
            Waveform::Sine
        };
        (waveform, (param & 0b0000_0100) == 0)
    }

    fn mod_xm_extended_commands(fx: u8, param: u8) -> (r: Option<Vec<TrackImportEffect>>)
        requires
            fx < 16,
            param < 16,
        ensures
            effects_view(r) == mod_xm_extended(fx as int, param as int),
    {
        match fx {
            // E1y: fine portamento up
            0x1 => {
                if param != 0 {
                    one_effect(
                        TrackImportEffect::PortamentoFineUp(Amount::ratio(-4 * (param as i32), 1)),
                    )
                } else {
                    None
                }
            },
            // E2y: fine portamento down
            0x2 => {
                if param != 0 {
                    one_effect(
                        TrackImportEffect::PortamentoFineDown(Amount::ratio(4 * (param as i32), 1)),
                    )
                } else {
                    None
                }
            },
            // E3y: glissando
            0x3 => one_effect(TrackImportEffect::Glissando(true)),
            // E4y: vibrato waveform
            0x4 => {
                let (waveform, retrig) = Self::mod_xm_waveform_of(param);
                one_effect(TrackImportEffect::VibratoWaveform(waveform, retrig))
            },
            // E5y: fine tune
            0x5 => one_effect(
                TrackImportEffect::InstrumentFineTune(Amount::ratio((param as i32) - 8, 8)),
            ),
            // E7y: tremolo waveform
            0x7 => {
                let (waveform, retrig) = Self::mod_xm_waveform_of(param);
                one_effect(TrackImportEffect::TremoloWaveform(waveform, retrig))
            },
            // E9y: retrigger
            0x9 => one_effect(TrackImportEffect::NoteRetrig(param as usize)),
            // EAy: fine volume slide up
            0xA => one_effect(TrackImportEffect::VolumeSlide0(Amount::ratio(param as i32, 64))),
            // EBy: fine volume slide down
            0xB => one_effect(TrackImportEffect::VolumeSlide0(Amount::ratio(-(param as i32), 64))),
            // ECy: note cut
            0xC => one_effect(TrackImportEffect::NoteCut(param as usize, false)),
            // EDy: note delay
            0xD => one_effect(TrackImportEffect::NoteDelay(param as usize)),
            _ => None,
        }
    }

    fn mod_xm_walk_effect(freq_type: FrequencyType, current: &PatternSlot) -> (r: Option<
        Vec<TrackImportEffect>,
    >)
        ensures
            effects_view(r) == spec_mod_xm_walk_effect(
                freq_type,
                current.effect_type,
                current.effect_parameter,
            ),
    {
        let param: u8 = current.effect_parameter;
        proof {
            lemma_nibbles(param);
        }
        let high: u8 = (param & 0xF0) >> 4;
        let low: u8 = param & 0x0F;
        match current.effect_type {
            // 0xy: arpeggio
            0x00 => {
                if param > 0 {
                    one_effect(TrackImportEffect::Arpeggio((param >> 4) as usize, low as usize))
                } else {
                    None
                }
            },
            // 1xx: portamento up
            0x01 => one_effect(
                TrackImportEffect::PortamentoUp(Amount::ratio(-4 * (param as i32), 1)),
            ),
            // 2xx: portamento down
            0x02 => one_effect(
                TrackImportEffect::PortamentoDown(Amount::ratio(4 * (param as i32), 1)),
            ),
            // 3xx: tone portamento
            0x03 => one_effect(
                TrackImportEffect::TonePortamento(tone_portamento(freq_type, param)),
            ),
            // 4xy: vibrato
            0x04 => one_effect(
                TrackImportEffect::Vibrato(
                    Amount::ratio(high as i32, 64),
                    Amount::ratio(low as i32, 16),
                ),
            ),
            // 5xy: tone portamento with the last value, and volume slide
            0x05 => {
                let slide = match Self::mod_xm_volume_slide(param) {
                    Some(vste) => vste,
                    None => Amount::zero(),
                };
                two_effects(
                    TrackImportEffect::TonePortamento(Amount::zero()),
                    TrackImportEffect::VolumeSlideN(slide),
                )
            },
            // 6xy: vibrato with the last values, and volume slide
            0x06 => {
                let slide = match Self::mod_xm_volume_slide(param) {
                    Some(vste) => vste,
                    None => Amount::zero(),
                };
                two_effects(
                    TrackImportEffect::Vibrato(Amount::zero(), Amount::zero()),
                    TrackImportEffect::VolumeSlideN(slide),
                )
            },
            // 7xy: tremolo
            0x07 => one_effect(
                TrackImportEffect::Tremolo(
                    Amount::ratio(high as i32, 64),
                    Amount::ratio(low as i32, 16),
                ),
            ),
            // 8xx: panning
            0x08 => one_effect(TrackImportEffect::ChannelPanning(Amount::ratio(param as i32, 255))),
            // 9xx: sample offset
            0x09 => one_effect(TrackImportEffect::InstrumentSampleOffset((param as usize) * 256)),
            // Axy: volume slide
            0x0A => {
                match Self::mod_xm_volume_slide(param) {
                    Some(vste) => one_effect(TrackImportEffect::VolumeSlideN(vste)),
                    None => None,
                }
            },
            // Cxx: volume
            0x0C => {
                let v: u8 = if param > 64 {
                    param
                } else {
                    64
                };
                one_effect(TrackImportEffect::Volume(Amount::ratio(v as i32, 64), 0))
            },
            // Exy: extended commands
            0x0E => Self::mod_xm_extended_commands(param >> 4, low),
            // Kxx: key off
            0x14 => one_effect(TrackImportEffect::NoteOff(param as usize, false)),
            // Lxx: envelope position
            0x15 => one_effect(TrackImportEffect::InstrumentVolumeEnvelopePosition(param as usize)),
            // Pxy: panning slide
            0x19 => {
                if low == 0 {
                    one_effect(TrackImportEffect::ChannelPanningSlideN(Amount::ratio(high as i32, 16)))
                } else if high == 0 {
                    one_effect(
                        TrackImportEffect::ChannelPanningSlideN(Amount::ratio(-(low as i32), 16)),
                    )
                } else {
                    None
                }
            },
            // Rxy: retrigger every y ticks with the volume change x
            0x1B => one_effect(
                TrackImportEffect::NoteRetrigExtended(low as usize, (param >> 4) as usize),
            ),
            // Txy: tremor
            0x1D => one_effect(TrackImportEffect::Tremor((param >> 4) as usize, low as usize)),
            // X1y and X2y: extra fine portamento up and down
            0x21 => {
                match param >> 4 {
                    1 => one_effect(
                        TrackImportEffect::PortamentoExtraFineUp(Amount::ratio(-(low as i32), 1)),
                    ),
                    2 => one_effect(
                        TrackImportEffect::PortamentoExtraFineDown(Amount::ratio(low as i32, 1)),
                    ),
                    _ => None,
                }
            },
            _ => None,
        }
    }

    fn mod_xm_walk_volume(freq_type: FrequencyType, current: &PatternSlot) -> (r: Option<
        TrackImportEffect,
    >)
        ensures
            r == spec_mod_xm_walk_volume(freq_type, current.volume),
    {
        let volume: u8 = current.volume;
        proof {
            assert(volume < 16 ==> (volume & 0x0F) == volume) by (bit_vector);
        }
        let low: u8 = volume & 0x0F;
        match volume {
            0x0 => None,
            // volume
            0x1..=0x4 => Some(
                TrackImportEffect::Volume(Amount::ratio(volume.wrapping_sub(0x10) as i32, 64), 0),
            ),
            0x5 => Some(
                TrackImportEffect::Volume(Amount::ratio(volume.wrapping_sub(0x20) as i32, 64), 0),
            ),
            // fine volume slide down
            0x6 => Some(TrackImportEffect::VolumeSlide0(Amount::ratio(-(low as i32), 64))),
            // fine volume slide up
            0x7 => Some(TrackImportEffect::VolumeSlide0(Amount::ratio(low as i32, 64))),
            // volume slide down
            0x8 => Some(TrackImportEffect::VolumeSlideN(Amount::ratio(-(low as i32), 64))),
            // volume slide up
            0x9 => Some(TrackImportEffect::VolumeSlideN(Amount::ratio(low as i32, 64))),
            // vibrato speed
            0xA => Some(TrackImportEffect::VibratoSpeed(Amount::ratio(low as i32, 64))),
            // vibrato depth
            0xB => Some(TrackImportEffect::VibratoDepthFxVol(Amount::ratio(low as i32, 16))),
            // panning
            0xC => Some(TrackImportEffect::ChannelPanning(Amount::ratio(volume as i32, 16))),
            // panning slide left
            0xD => Some(
                TrackImportEffect::ChannelPanningSlideN(Amount::ratio(-(volume as i32), 16)),
            ),
            // panning slide right
            0xE => Some(TrackImportEffect::ChannelPanningSlideN(Amount::ratio(volume as i32, 16))),
            // tone portamento
            0xF => {
                let speed: i32 = (low as i32) * 16;
                let speed: i32 = match freq_type {
                    FrequencyType::LinearFrequencies => 4 * speed,
                    FrequencyType::AmigaFrequencies => speed,
                };
                Some(TrackImportEffect::TonePortamentoFxVol(Amount::ratio(speed, 1)))
            },
            _ => None,
        }
    }

    fn mod_xm_walk_global_effect(current: &PatternSlot) -> (r: Option<GlobalEffect>)
        ensures
            r == spec_mod_xm_walk_global_effect(current.effect_type, current.effect_parameter),
    {
        let param: u8 = current.effect_parameter;
        proof {
            lemma_nibbles(param);
        }
        let upper_nibble: u8 = param & 0xF0;
        let lower_nibble: u8 = param & 0x0F;
        match current.effect_type {
            // Bxx: position jump
            0x0B => Some(GlobalEffect::PositionJump(param as usize)),
            // Dxx: pattern break, in decimal digits
            0x0D => {
                let ten: usize = ((param >> 4) as usize) * 10;
                let unit: usize = lower_nibble as usize;
                Some(GlobalEffect::PatternBreak(ten + unit))
            },
            // Exy: extended commands
            0x0E => {
                match param >> 4 {
                    // E6y: pattern loop
                    0x6 => Some(GlobalEffect::PatternLoop(lower_nibble as usize)),
                    // EEy: pattern delay
                    0xE => Some(
                        GlobalEffect::PatternDelay { quantity: lower_nibble as usize, tempo: true },
                    ),
                    _ => None,
                }
            },
            // Fxx: speed below 32, else beats per minute
            0x0F => {
                if param < 32 {
                    Some(GlobalEffect::Speed(param as usize))
                } else {
                    Some(GlobalEffect::Bpm(param as usize))
                }
            },
            // Gxx: global volume
            0x10 => {
                let v: u8 = if param > 64 {
                    param
                } else {
                    64
                };
                Some(GlobalEffect::Volume(Amount::ratio(v as i32, 64)))
            },
            // Hxy: global volume slide
            0x11 => {
                if upper_nibble == 0 {
                    Some(
                        GlobalEffect::VolumeSlide {
                            speed: Amount::ratio(-(lower_nibble as i32), 64),
                            fine: false,
                        },
                    )
                } else if lower_nibble == 0 {
                    Some(
                        GlobalEffect::VolumeSlide {
                            speed: Amount::ratio((upper_nibble >> 4) as i32, 64),
                            fine: false,
                        },
                    )
                } else {
                    None
                }
            },
            _ => None,
        }
    }

    /// Reads one MOD or XM cell as a track import unit.
    pub fn mod_xm_unpack(freq_type: FrequencyType, current: &PatternSlot) -> (r: TrackImportUnit)
        ensures
            r@ == spec_mod_xm_unpack(freq_type, *current),
    {
        let te = Self::mod_xm_walk_effect(freq_type, current);
        let ve = Self::mod_xm_walk_volume(freq_type, current);
        let cc = Self::mod_xm_walk_global_effect(current);
        let mut tiu = TrackImportUnit::default();
        tiu.note = current.note;
        tiu.instrument = current.instrument;
        match ve {
            Some(e) => {
                tiu.effects.push(e);
            },
            None => {},
        }
        match te {
            Some(v) => {
                let mut i: usize = 0;
                let ghost before = tiu.effects@;
                while i < v.len()
                    invariant
                        0 <= i <= v.len(),
                        tiu.effects@ == before + v@.take(i as int),
                        tiu.note == current.note,
                        tiu.instrument == current.instrument,
                        tiu.velocity == (Amount { raw: crate::amount::AMOUNT_ONE }),
                        tiu.global_effects@ == Seq::<GlobalEffect>::empty(),
                    decreases v.len() - i,
                {
                    tiu.effects.push(v[i]);
                    assert(v@.take(i + 1) == v@.take(i as int).push(v@[i as int]));
                    i += 1;
                }
                assert(v@.take(v.len() as int) == v@);
            },
            None => {
                assert(tiu.effects@ + Seq::<TrackImportEffect>::empty() == tiu.effects@);
            },
        }
        match cc {
            Some(c) => {
                tiu.global_effects.push(c);
            },
            None => {},
        }
        assert(tiu@.effects == spec_mod_xm_unpack(freq_type, *current).effects);
        assert(tiu@.global_effects == spec_mod_xm_unpack(freq_type, *current).global_effects);
        tiu
    }

    /// Reads the cells of a row as track import units.
    pub fn mod_xm_unpack_row(freq_type: FrequencyType, row: &Vec<PatternSlot>) -> (r: Vec<
        TrackImportUnit,
    >)
        ensures
            r.deep_view() == spec_mod_xm_unpack_row(freq_type, row@),
    {
        let mut out: Vec<TrackImportUnit> = Vec::new();
        let mut i: usize = 0;
        while i < row.len()
            invariant
                0 <= i <= row.len(),
                out@.len() == i,
                forall|k: int|
                    0 <= k < i ==> (#[trigger] out@[k])@ == spec_mod_xm_unpack(freq_type, row@[k]),
            decreases row.len() - i,
        {
            out.push(Self::mod_xm_unpack(freq_type, &row[i]));
            i += 1;
        }
        assert(out.deep_view() =~= spec_mod_xm_unpack_row(freq_type, row@));
        out
    }

    /// Reads the cells of a pattern as track import units.
    pub fn mod_xm_unpack_pattern(freq_type: FrequencyType, pattern: &Vec<Vec<PatternSlot>>) -> (r:
        Vec<Vec<TrackImportUnit>>)
        ensures
            r.deep_view() == spec_mod_xm_unpack_pattern(freq_type, pattern.deep_view()),
    {
        let mut out: Vec<Vec<TrackImportUnit>> = Vec::new();
        let mut i: usize = 0;
        while i < pattern.len()
            invariant
                0 <= i <= pattern.len(),
                out@.len() == i,
                forall|k: int|
                    0 <= k < i ==> (#[trigger] out@[k]).deep_view() == spec_mod_xm_unpack_row(
                        freq_type,
                        pattern@[k]@,
                    ),
            decreases pattern.len() - i,
        {
            out.push(Self::mod_xm_unpack_row(freq_type, &pattern[i]));
            i += 1;
        }
        proof {
            assert forall|k: int| 0 <= k < pattern@.len() implies (
            #[trigger] pattern.deep_view()[k]) == pattern@[k]@ by {
                assert(pattern@[k].deep_view() =~= pattern@[k]@);
            }
            assert(out.deep_view() =~= spec_mod_xm_unpack_pattern(freq_type, pattern.deep_view()));
        }
        out
    }
}

} // verus!
