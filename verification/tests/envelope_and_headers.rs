use xmrs::amount::Amount;
use xmrs::envelope::{sort_points, Envelope, EnvelopePoint};
use xmrs::error::DecodeError;
use xmrs::instr_default::{DuplicateCheckAction, DuplicateCheckType, NewNoteAction};
use xmrs::it_edit_history::{ItEditHistory, ItEditHistoryEntry};
use xmrs::it_header::ItHeader;
use xmrs::it_instrument::{
    is_impi, new_note_action, pitch_pan_center, sample_for_pitch, ItEnvelopePost2, ItEnvelopePre2,
};
use xmrs::pitch::Pitch;
use xmrs::it_plugins::Plugins;
use xmrs::it_x_names::ItXNames;
use xmrs::period_helper::FrequencyType;
use xmrs::sample::LoopType;
use xmrs::waveform::{Waveform, WaveformState};

fn q(num: i32, den: u16) -> Amount {
    Amount::ratio(num, den)
}

fn pt(frame: usize, num: i32, den: u16) -> EnvelopePoint {
    EnvelopePoint { frame, value: q(num, den) }
}

#[test]
fn lerp_at_and_beyond_the_points() {
    let a = pt(10, 1, 4);
    let b = pt(20, 3, 4);
    assert_eq!(EnvelopePoint::lerp(&a, &b, 10), q(1, 4));
    assert_eq!(EnvelopePoint::lerp(&a, &b, 0), q(1, 4));
    assert_eq!(EnvelopePoint::lerp(&a, &b, 20), q(3, 4));
    assert_eq!(EnvelopePoint::lerp(&a, &b, 99), q(3, 4));
    assert_eq!(EnvelopePoint::lerp(&a, &b, 15), q(1, 2));
}

#[test]
fn lerp_half_way() {
    let a = pt(0, 0, 1);
    let b = pt(10, 1, 1);
    assert_eq!(EnvelopePoint::lerp(&a, &b, 5), q(1, 2));
    assert_eq!(EnvelopePoint::lerp(&a, &b, 1), q(1, 10));
    assert_eq!(EnvelopePoint::lerp(&a, &b, 9), q(9, 10));
}

#[test]
fn lerp_downwards_and_rounded() {
    let a = pt(0, 1, 1);
    let b = pt(4, 0, 1);
    assert_eq!(EnvelopePoint::lerp(&a, &b, 1), q(3, 4));
    assert_eq!(EnvelopePoint::lerp(&a, &b, 3), q(1, 4));
    // a third of the way: 65280 / 3 = 21760 raw units
    let c = pt(3, 1, 1);
    assert_eq!(EnvelopePoint::lerp(&pt(0, 0, 1), &c, 1).raw, 21760);
    // 7 frames: 65280 * 1 / 7 = 9325.7, rounded down
    assert_eq!(EnvelopePoint::lerp(&pt(0, 0, 1), &pt(7, 1, 1), 1).raw, 9325);
    assert_eq!(EnvelopePoint::lerp(&pt(0, 1, 1), &pt(7, 0, 1), 1).raw, 65280 - 9325);
}

#[test]
fn lerp_with_points_out_of_order() {
    // the second point does not lie after the first
    let a = pt(10, 1, 4);
    let b = pt(5, 3, 4);
    assert_eq!(EnvelopePoint::lerp(&a, &b, 7), q(1, 4));
    assert_eq!(EnvelopePoint::lerp(&a, &b, 12), q(3, 4));
}

fn envelope() -> Envelope {
    Envelope {
        enabled: true,
        point: vec![pt(0, 0, 1), pt(10, 1, 1), pt(20, 1, 2), pt(40, 0, 1)],
        sustain_enabled: true,
        sustain_start_point: 1,
        sustain_end_point: 2,
        loop_enabled: true,
        loop_start_point: 0,
        loop_end_point: 3,
    }
}

#[test]
fn sustain_wraps_past_the_end_only() {
    let e = envelope();
    assert_eq!(e.loop_in_sustain(5), 5);
    assert_eq!(e.loop_in_sustain(20), 20);
    assert_eq!(e.loop_in_sustain(21), 10);
    assert_eq!(e.loop_in_loop(40), 40);
    assert_eq!(e.loop_in_loop(41), 0);
    assert_eq!(e.loop_in_loop(39), 39);
}

#[test]
fn ranges_that_are_off_do_not_wrap() {
    let mut e = envelope();
    e.sustain_enabled = false;
    e.loop_enabled = false;
    assert_eq!(e.loop_in_sustain(1000), 1000);
    assert_eq!(e.loop_in_loop(1000), 1000);
    let d = Envelope::default();
    assert!(!d.enabled);
    assert_eq!(d.point.len(), 0);
    assert_eq!(d.loop_in_loop(7), 7);
    assert_eq!(EnvelopePoint::default(), pt(0, 0, 1));
}

#[test]
fn points_are_sorted_by_frame_and_stay_in_order() {
    let points = vec![pt(5, 1, 4), pt(0, 1, 2), pt(5, 3, 4), pt(2, 1, 1), pt(0, 0, 1)];
    assert_eq!(
        sort_points(&points),
        vec![pt(0, 1, 2), pt(0, 0, 1), pt(2, 1, 1), pt(5, 1, 4), pt(5, 3, 4)]
    );
    assert_eq!(sort_points(&vec![]), vec![]);
}

#[test]
fn it_envelopes() {
    let mut nodes = [(0u8, 0u16); 25];
    nodes[0] = (10, 64);
    nodes[1] = (5, 32);
    let e = ItEnvelopePost2 {
        flags: 0b0000_0101,
        node_count: 2,
        loop_start: 1,
        loop_end: 2,
        sustain_loop_start: 3,
        sustain_loop_end: 4,
        node_points: nodes,
    };
    let points = e.to_envelope();
    assert_eq!(points.len(), 25);
    assert_eq!(points[22], pt(0, 0, 1));
    assert_eq!(points[23], pt(5, 1, 2));
    assert_eq!(points[24], pt(10, 1, 1));
    let s = e.to_envelope_struct();
    assert!(s.enabled);
    assert!(!s.loop_enabled);
    assert!(s.sustain_enabled);
    assert_eq!(s.loop_start_point, 1);
    assert_eq!(s.loop_end_point, 2);
    assert_eq!(s.sustain_start_point, 3);
    assert_eq!(s.sustain_end_point, 4);
    assert_eq!(s.point, points);
    let mut old = [(0u8, 0u8); 25];
    old[24] = (1, 16);
    let p = ItEnvelopePre2 { envelope: [0; 200], node_points: old };
    assert_eq!(p.to_envelope()[24], pt(1, 1, 4));
}

#[test]
fn instrument_tag() {
    assert!(is_impi(&"IMPI".to_string()));
    assert!(!is_impi(&"IMPS".to_string()));
    assert!(!is_impi(&"IMPI ".to_string()));
    assert!(!is_impi(&"".to_string()));
}

fn it_header(flags: u16, special_flags: u16, cwt: u16) -> ItHeader {
    ItHeader {
        id: [0x49, 0x4D, 0x50, 0x4D],
        song_name: "song".to_string(),
        pattern_highlight: [4, 16],
        order_number: 1,
        instrument_number: 0,
        sample_number: 0,
        pattern_number: 1,
        created_with_tracker: cwt,
        compatible_with_tracker: 0x0200,
        flags,
        special_flags,
        global_volume: 128,
        mix_volume: 48,
        initial_speed: 6,
        initial_tempo: 125,
        pan_separation: 128,
        pitch_wheel_depth: 0,
        message_length: 0,
        message_offset: 0,
        reserved: [0x4F, 0x4D, 0x50, 0x54],
        initial_channel_pan: [32; 64],
        initial_channel_volume: [64; 64],
    }
}

#[test]
fn it_header_flags() {
    let h = it_header(0b1010_0101, 0b0101, 0x0214);
    assert!(h.is_it_header());
    assert!(h.is_ompt());
    assert!(h.is_post20());
    assert!(h.is_stereo());
    assert!(!h.is_mixing());
    assert!(h.is_instruments_used());
    assert!(!h.is_linear_slides());
    assert!(!h.is_old_effects());
    assert!(h.is_g_linked_with_e_f());
    assert!(!h.is_midi_pitch_controlled());
    assert!(h.is_embedded_midi_macros());
    assert!(h.is_song_message_attached());
    assert!(!h.is_edit_history_embedded());
    assert!(h.is_highlight_embedded());
    assert!(!h.is_embedded_midi_macro());
    let mut g = it_header(0b0101_1010, 0b1010, 0x01FF);
    assert!(!g.is_post20());
    assert!(g.is_mixing());
    assert!(g.is_linear_slides());
    assert!(g.is_old_effects());
    assert!(g.is_midi_pitch_controlled());
    assert!(g.is_edit_history_embedded());
    assert!(g.is_embedded_midi_macro());
    g.id = [0x49, 0x4D, 0x50, 0x53];
    g.reserved = [0; 4];
    assert!(!g.is_it_header());
    assert!(!g.is_ompt());
}

#[test]
fn chunk_tags() {
    assert!(ItXNames::is_pnam(b"PNAM...."));
    assert!(!ItXNames::is_pnam(b"CNAM"));
    assert!(ItXNames::is_cnam(b"CNAM"));
    assert!(!ItXNames::is_cnam(b"CNAN"));
}

#[test]
fn edit_history_dates() {
    // 2004-07-25 13:45:58
    let e = ItEditHistoryEntry {
        fat_date: ((2004 - 1980) << 9) | (7 << 5) | 25,
        fat_time: (13 << 11) | (45 << 5) | 29,
        run_time: 182,
    };
    assert_eq!(e.date(), (2004, 7, 25));
    assert_eq!(e.time(), (13, 45, 58));
    let z = ItEditHistoryEntry { fat_date: 0xFFFF, fat_time: 0xFFFF, run_time: 0 };
    assert_eq!(z.date(), (2107, 15, 31));
    assert_eq!(z.time(), (31, 63, 62));
}

#[test]
fn edit_history_load() {
    assert_eq!(ItEditHistory::load(&[0, 0, 9]), Ok((None, 2)));
    let data = [2u8, 0, 1, 2, 3, 4, 5, 6, 7, 8, 0x10, 0x20, 0x30, 0x40, 0x50, 0x60, 0x70, 0x80, 0xEE];
    assert_eq!(
        ItEditHistory::load(&data),
        Ok((
            Some(vec![
                ItEditHistoryEntry { fat_date: 0x0201, fat_time: 0x0403, run_time: 0x08070605 },
                ItEditHistoryEntry { fat_date: 0x2010, fat_time: 0x4030, run_time: 0x80706050 },
            ]),
            18
        ))
    );
    assert_eq!(ItEditHistory::load(&[1]), Err(DecodeError::TruncatedInput));
    assert_eq!(ItEditHistory::load(&data[..17]), Err(DecodeError::TruncatedInput));
}

#[test]
fn plugins_start_blank() {
    let p = Plugins::new();
    assert_eq!(p.channel_settings, vec![0u32; 64]);
    assert_eq!(p.mix.len(), 64);
    assert_eq!(p.mix[63].info.id1, 0);
    assert_eq!(p.mix[0].info.reserved, [0u32; 4]);
    assert!(p.mix[5].data.is_none());
}

#[test]
fn defaults() {
    assert_eq!(NewNoteAction::default(), NewNoteAction::NoteCut);
    assert_eq!(DuplicateCheckAction::default(), DuplicateCheckAction::NoteCut(NewNoteAction::NoteCut));
    assert_eq!(DuplicateCheckType::default(), DuplicateCheckType::Off(NewNoteAction::NoteCut));
    assert_eq!(FrequencyType::default(), FrequencyType::LinearFrequencies);
    assert_eq!(LoopType::default(), LoopType::No);
    assert_eq!(Waveform::default(), Waveform::TranslatedSine);
    let s = WaveformState::new(Waveform::Square);
    assert_eq!(s.wf, Waveform::Square);
    assert_eq!(s.rng.get_seed(), 4294967291);
}

#[test]
fn instrument_rules() {
    assert_eq!(new_note_action(0), NewNoteAction::NoteCut);
    assert_eq!(new_note_action(1), NewNoteAction::Continue);
    assert_eq!(new_note_action(2), NewNoteAction::NoteOff);
    assert_eq!(new_note_action(3), NewNoteAction::NoteFadeOut);
    assert_eq!(new_note_action(4), NewNoteAction::NoteCut);
    assert_eq!(pitch_pan_center(60), Pitch::C5);
    assert_eq!(pitch_pan_center(120), Pitch::C4);
    assert_eq!(pitch_pan_center(255), Pitch::KeyOff);
    let mut table = [(0u8, 0u8); 120];
    table[0] = (5, 2);
    table[1] = (5, 7);
    table[2] = (120, 3);
    table[3] = (9, 0);
    table[119] = (119, 1);
    let s = sample_for_pitch(&table);
    assert_eq!(s.len(), 120);
    assert_eq!(s[5], Some(6));
    assert_eq!(s[9], None);
    assert_eq!(s[0], None);
    assert_eq!(s[119], Some(0));
}
