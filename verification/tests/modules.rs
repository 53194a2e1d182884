use xmrs::amiga_module::{tracks_of_tag, AmigaModule};
use xmrs::amiga_sample::AmigaSample;
use xmrs::amount::Amount;
use xmrs::envelope::{envelope_from_slice, is_envelope_nok, Envelope, EnvelopePoint};
use xmrs::error::DecodeError;
use xmrs::it_module::{load_pattern_at, load_patterns, load_sample_of, load_samples, read_offsets};
use xmrs::it_plugins::Plugins;
use xmrs::it_x_names::ItXNames;
use xmrs::xt_track::XtTrack;
use xmrs::it_sample_header::ItSampleHeader;
use xmrs::patternslot::PatternSlot;
use xmrs::period_helper_cache::{CacheKey, PeriodHelperCache};
use xmrs::pitch::Pitch;
use xmrs::sample::{LoopType, Sample, SampleDataType};
use xmrs::xmpattern::{get_pattern_order, load_xm_patterns, XmFlagType};

fn slot(note: Pitch, instrument: Option<usize>, volume: u8, fx: u8, param: u8) -> PatternSlot {
    PatternSlot { note, instrument, volume, effect_type: fx, effect_parameter: param }
}

#[test]
fn mod_tags() {
    assert_eq!(tracks_of_tag(b'M', b'.', b'K', b'.'), Some(4));
    assert_eq!(tracks_of_tag(b'M', b'!', b'K', b'!'), Some(4));
    assert_eq!(tracks_of_tag(b'M', b'&', b'K', b'!'), Some(4));
    assert_eq!(tracks_of_tag(b'T', b'D', b'Z', b'1'), Some(1));
    assert_eq!(tracks_of_tag(b'2', b'C', b'H', b'N'), Some(2));
    assert_eq!(tracks_of_tag(b'T', b'D', b'Z', b'3'), Some(3));
    assert_eq!(tracks_of_tag(b'6', b'C', b'H', b'N'), Some(6));
    assert_eq!(tracks_of_tag(b'O', b'C', b'T', b'A'), Some(8));
    assert_eq!(tracks_of_tag(b'F', b'L', b'T', b'8'), Some(8));
    assert_eq!(tracks_of_tag(b'9', b'C', b'H', b'N'), Some(9));
    assert_eq!(tracks_of_tag(b'1', b'6', b'C', b'H'), Some(16));
    assert_eq!(tracks_of_tag(b'3', b'2', b'C', b'N'), Some(32));
    assert_eq!(tracks_of_tag(b'+', b'6', b'C', b'H'), Some(6));
    assert_eq!(tracks_of_tag(b'0', b'0', b'C', b'H'), None);
    assert_eq!(tracks_of_tag(b' ', b'6', b'C', b'H'), None);
    assert_eq!(tracks_of_tag(b'6', b' ', b'C', b'H'), None);
    assert_eq!(tracks_of_tag(b'-', b'6', b'C', b'H'), None);
    assert_eq!(tracks_of_tag(b'1', b'6', b'C', b'X'), None);
    assert_eq!(tracks_of_tag(0, 0, 0, 0), None);
}

fn mod_file(tag: &[u8; 4], positions: &[u8], tracks: usize, audio: &[u8]) -> Vec<u8> {
    let mut f = vec![0u8; 1084];
    f[..5].copy_from_slice(b"title");
    // sample 0: name "s0", length 2 words, finetune 1, volume 64, loop from word 1 for 1 word
    f[20] = b's';
    f[21] = b'0';
    f[42] = 0;
    f[43] = 2;
    f[44] = 1;
    f[45] = 64;
    f[46] = 0;
    f[47] = 1;
    f[48] = 0;
    f[49] = 1;
    // sample 1: length 0x0101 words
    f[50 + 22] = 1;
    f[50 + 23] = 1;
    f[950] = positions.len() as u8;
    f[951] = 127;
    f[952..952 + positions.len()].copy_from_slice(positions);
    f[1080..1084].copy_from_slice(tag);
    let n_patterns = 1 + *positions.iter().max().unwrap_or(&0) as usize;
    let mut cells = vec![0u8; n_patterns * 64 * tracks * 4];
    // pattern 0, row 0, channel 1: instrument 0x12, period 428, effect A04
    let at = 4;
    cells[at] = 0x10 | (428u16 >> 8) as u8;
    cells[at + 1] = (428u16 & 0xFF) as u8;
    cells[at + 2] = 0x2A;
    cells[at + 3] = 0x04;
    // the last cell of the last pattern: effect F06
    let last = cells.len() - 4;
    cells[last + 2] = 0x0F;
    cells[last + 3] = 0x06;
    f.extend(cells);
    f.extend(audio);
    f
}

#[test]
fn mod_file_is_taken_apart() {
    let f = mod_file(b"M.K.", &[0, 1, 0], 4, &[1, 0xFF, 3, 0x80, 9, 9]);
    let m = AmigaModule::load(&f).unwrap();
    assert_eq!(&m.title[..5], b"title");
    assert_eq!(m.title.len(), 22);
    assert_eq!(m.tag, b"M.K.".to_vec());
    assert_eq!(m.get_number_of_tracks(), Some(4));
    assert_eq!(m.get_number_of_samples(), 31);
    assert_eq!(m.get_number_of_patterns(), 2);
    assert_eq!(m.samples.len(), 31);
    assert_eq!(&m.samples[0].name[..2], b"s0");
    assert_eq!(m.samples[0].length_div2, 2);
    assert_eq!(m.samples[0].finetune, 1);
    assert_eq!(m.samples[0].volume, 64);
    assert_eq!(m.samples[0].repeat_offset_div2, 1);
    assert_eq!(m.samples[0].repeat_length_div2, 1);
    assert_eq!(m.samples[1].length_div2, 0x0101);
    assert_eq!(m.song_length, 3);
    assert_eq!(m.restart_position, 127);
    assert_eq!(m.positions.len(), 128);
    assert_eq!(&m.positions[..4], &[0, 1, 0, 0]);
    assert_eq!(m.patterns.len(), 2);
    assert_eq!(m.patterns[0].len(), 64);
    assert_eq!(m.patterns[0][0].len(), 4);
    assert_eq!(m.patterns[0][0][1], slot(Pitch::C4, Some(0x11), 0, 0x0A, 0x04));
    assert_eq!(m.patterns[0][0][0], PatternSlot::default());
    assert_eq!(m.patterns[1][63][3], slot(Pitch::Empty, None, 0, 0x0F, 0x06));
    // the first sample takes its four bytes, the second what is left
    assert_eq!(m.audio.len(), 31);
    assert_eq!(m.audio[0], vec![1i8, -1, 3, -128]);
    assert_eq!(m.audio[1], vec![9i8, 9]);
    assert_eq!(m.audio[2], Vec::<i8>::new());
    assert_eq!(m.pattern_order(), vec![vec![0usize, 1, 0]]);
    assert_eq!(AmigaModule::amiga_to_module_pattern(&m.patterns[0]), m.patterns[0]);
}

#[test]
fn mod_file_with_eight_channels() {
    let f = mod_file(b"8CHN", &[0], 8, &[]);
    let m = AmigaModule::load(&f).unwrap();
    assert_eq!(m.patterns.len(), 1);
    assert_eq!(m.patterns[0][0].len(), 8);
    assert_eq!(m.patterns[0][63][7], slot(Pitch::Empty, None, 0, 0x0F, 0x06));
}

#[test]
fn mod_file_truncated() {
    let f = mod_file(b"M.K.", &[0, 1], 4, &[]);
    assert!(matches!(AmigaModule::load(&f[..1083]), Err(DecodeError::TruncatedInput)));
    assert!(matches!(AmigaModule::load(&f[..f.len() - 1]), Err(DecodeError::TruncatedInput)));
    assert!(matches!(AmigaModule::load(&[]), Err(DecodeError::TruncatedInput)));
    assert!(AmigaModule::load(&f).is_ok());
}

#[test]
fn mod_file_without_a_known_tag_has_fifteen_samples() {
    // 15 samples: the order table is at 20 + 450, the patterns at 600
    let mut f = vec![0u8; 600 + 1024];
    f[470] = 1;
    f[600 + 2] = 0x0C;
    f[600 + 3] = 0x40;
    let m = AmigaModule::load(&f).unwrap();
    assert_eq!(m.get_number_of_tracks(), None);
    assert_eq!(m.get_number_of_samples(), 15);
    assert_eq!(m.samples.len(), 15);
    assert_eq!(m.patterns.len(), 1);
    assert_eq!(m.patterns[0][0].len(), 4);
    assert_eq!(m.patterns[0][0][0], slot(Pitch::Empty, None, 0, 0x0C, 0x40));
}

#[test]
fn amiga_sample_header() {
    let mut bytes = vec![0u8; 31];
    bytes[0] = b'a';
    bytes[22] = 0x12;
    bytes[23] = 0x34;
    bytes[24] = 7;
    bytes[25] = 32;
    bytes[26] = 0;
    bytes[27] = 8;
    bytes[28] = 0x10;
    bytes[29] = 0;
    let (used, s) = AmigaSample::load(&bytes).unwrap();
    assert_eq!(used, 30);
    assert_eq!(s.name.len(), 22);
    assert_eq!(s.length_div2, 0x1234);
    assert_eq!(s.finetune, 7);
    assert_eq!(s.volume, 32);
    assert_eq!(s.repeat_offset_div2, 8);
    assert_eq!(s.repeat_length_div2, 0x1000);
    assert_eq!(s.loop_points(), (LoopType::Forward, 16, 0x2000));
    assert!(AmigaSample::load(&bytes[..29]).is_none());
}

fn amiga_sample(length: u16, offset: u16, repeat: u16) -> AmigaSample {
    AmigaSample {
        name: vec![0; 22],
        length_div2: length,
        finetune: 0,
        volume: 64,
        repeat_offset_div2: offset,
        repeat_length_div2: repeat,
    }
}

#[test]
fn amiga_loops() {
    assert_eq!(amiga_sample(100, 10, 20).loop_points(), (LoopType::Forward, 20, 40));
    // a loop of one word is no loop
    assert_eq!(amiga_sample(100, 10, 1).loop_points(), (LoopType::No, 20, 2));
    // an offset beyond the sample counts as 0
    assert_eq!(amiga_sample(100, 100, 20).loop_points(), (LoopType::Forward, 0, 40));
    // a loop that ends beyond the sample has no length
    assert_eq!(amiga_sample(100, 90, 20).loop_points(), (LoopType::No, 180, 0));
    assert_eq!(amiga_sample(0xFFFF, 0xFFFE, 1).loop_points(), (LoopType::No, 0x1FFFC, 2));
}

#[test]
fn xm_cells_are_written() {
    let s = slot(Pitch::C4, Some(5), 0x40, 0x0A, 0x04);
    assert_eq!(s.save_xm_unpack(), vec![49, 4, 0x40, 0x0A, 0x04]);
    assert_eq!(s.save_xm(), vec![49, 4, 0x40, 0x0A, 0x04]);
    let s = slot(Pitch::KeyOff, None, 0, 0, 0x33);
    assert_eq!(s.save_xm_unpack(), vec![97, 0, 0, 0, 0x33]);
    assert_eq!(s.save_xm(), vec![0b1001_0001, 97, 0x33]);
    let s = slot(Pitch::C0, None, 0x10, 0x0F, 0);
    assert_eq!(s.save_xm(), vec![0b1000_1101, 1, 0x10, 0x0F]);
    let s = slot(Pitch::Cut, Some(1), 0, 0, 0);
    assert_eq!(s.save_xm_unpack(), vec![255, 0, 0, 0, 0]);
    assert_eq!(s.save_xm(), vec![0b1000_0001, 255]);
    assert_eq!(slot(Pitch::Empty, Some(0), 0, 0, 0).save_xm_unpack(), vec![254, 255, 0, 0, 0]);
    assert_eq!(slot(Pitch::C0, Some(257), 0, 0, 0).save_xm_unpack(), vec![1, 0, 0, 0, 0]);
}

#[test]
fn xm_order_table() {
    assert_eq!(get_pattern_order(20 + 4, 3, &[5, 6, 7, 8, 9]), Ok((4, vec![5, 6, 7])));
    assert_eq!(get_pattern_order(20, 0, &[]), Ok((0, vec![])));
    assert_eq!(get_pattern_order(19, 0, &[1]), Err(DecodeError::MalformedField));
    assert_eq!(get_pattern_order(20 + 4, 3, &[5, 6, 7]), Err(DecodeError::TruncatedInput));
    assert_eq!(get_pattern_order(20 + 2, 3, &[5, 6, 7]), Err(DecodeError::MalformedField));
    assert_eq!(XmFlagType::try_from(0), Ok(XmFlagType::XmAmigaFrequencies));
    assert_eq!(XmFlagType::try_from(1), Ok(XmFlagType::XmLinearFrequencies));
    assert_eq!(XmFlagType::try_from(2), Err(DecodeError::MalformedField));
    assert_eq!(XmFlagType::XmLinearFrequencies.value(), 1);
    assert_eq!(XmFlagType::XmAmigaFrequencies.value(), 0);
}

#[test]
fn xm_patterns_in_a_row() {
    let mut data = vec![9u8, 0, 0, 0, 0, 1, 0, 2, 0, 0x81, 49];
    data.extend([9u8, 0, 0, 0, 0, 2, 0, 0, 0]);
    data.push(0x55);
    let (used, patterns) = load_xm_patterns(&data, 2, 1).unwrap();
    assert_eq!(used, 20);
    assert_eq!(patterns.len(), 2);
    assert_eq!(patterns[0].pattern, vec![vec![slot(Pitch::C4, None, 0, 0, 0)]]);
    assert_eq!(patterns[1].header.num_rows, 2);
    assert_eq!(patterns[1].pattern, vec![vec![PatternSlot::default()]; 2]);
    assert!(matches!(load_xm_patterns(&data, 3, 1), Err(DecodeError::TruncatedInput)));
    assert_eq!(load_xm_patterns(&data, 0, 1).unwrap().0, 0);
}

#[test]
fn xm_envelope_points() {
    let e = envelope_from_slice(&[10, 0, 32, 0, 0x2C, 0x01, 64, 0, 7, 7]).unwrap();
    assert_eq!(
        e.point,
        vec![
            EnvelopePoint { frame: 10, value: Amount::ratio(1, 2) },
            EnvelopePoint { frame: 300, value: Amount::ratio(1, 1) }
        ]
    );
    assert!(!e.enabled);
    assert!(!is_envelope_nok(&e));
    assert!(is_envelope_nok(&Envelope::default()));
    let mut bad = envelope_from_slice(&[0; 8]).unwrap();
    bad.loop_start_point = 1;
    assert!(is_envelope_nok(&bad));
    bad.loop_start_point = 0;
    bad.sustain_start_point = 1;
    assert!(is_envelope_nok(&bad));
    bad.sustain_end_point = 1;
    assert!(!is_envelope_nok(&bad));
    bad.loop_end_point = 2;
    assert!(is_envelope_nok(&bad));
    assert!(is_envelope_nok(&envelope_from_slice(&[0; 52]).unwrap()));
    assert!(!is_envelope_nok(&envelope_from_slice(&[0; 48]).unwrap()));
}

#[test]
fn it_offsets() {
    assert_eq!(
        read_offsets(&[1, 2, 3, 4, 0xFF, 0xFF, 0xFF, 0xFF, 9], 2),
        Ok(vec![0x04030201, 0xFFFFFFFF])
    );
    assert_eq!(read_offsets(&[1, 2, 3], 0), Ok(vec![]));
    assert_eq!(read_offsets(&[1, 2, 3, 4, 5, 6, 7], 2), Err(DecodeError::TruncatedInput));
}

#[test]
fn it_patterns_by_offset() {
    // a pattern of 1 row at offset 4: channel 0, note C-5
    let file = [0u8, 0, 0, 0, 4, 0, 1, 0, 0, 0, 0, 0, 0x81, 0x01, 60, 0x00];
    let rows = load_pattern_at(&file, 4).unwrap();
    assert_eq!(rows.len(), 1);
    assert_eq!(rows[0].len(), 64);
    assert_eq!(rows[0][0].note, Pitch::C5);
    // the offset 0 stands for a pattern that is not there
    assert_eq!(load_pattern_at(&file, 0).unwrap(), vec![Vec::<PatternSlot>::new()]);
    assert_eq!(load_pattern_at(&file, 17), Err(DecodeError::TruncatedInput));
    assert_eq!(load_pattern_at(&file, 16), Err(DecodeError::TruncatedInput));
    assert_eq!(load_pattern_at(&file, 10), Err(DecodeError::TruncatedInput));
    let all = load_patterns(&file, &vec![0, 4, 0]).unwrap();
    assert_eq!(all.len(), 3);
    assert_eq!(all[1][0][0].note, Pitch::C5);
    assert_eq!(load_patterns(&file, &vec![4, 99]), Err(DecodeError::TruncatedInput));
}

fn sample_header(flags: u8, sample_length: u32, sample_pointer: u32) -> ItSampleHeader {
    ItSampleHeader {
        id: [0x49, 0x4D, 0x50, 0x53],
        dos_filename: String::new(),
        reserved_byte: 0,
        global_volume: 64,
        flags,
        default_volume: 64,
        sample_name: String::new(),
        convert_flags: 1,
        default_pan: 0,
        sample_length,
        loop_beginning: 0,
        loop_end: 0,
        c5_speed: 8363,
        sustain_loop_beginning: 0,
        sustain_loop_end: 0,
        sample_pointer,
        vibrato_speed: 0,
        vibrato_depth: 0,
        vibrato_sweep: 0,
        vibrato_waveform: 0,
    }
}

#[test]
fn it_samples_by_pointer() {
    let file = [9u8, 9, 1, 2, 3];
    match load_sample_of(&file, &sample_header(1, 2, 2)) {
        Ok(Some(SampleDataType::Mono8(v))) => assert_eq!(v, vec![1i8, 2]),
        _ => panic!("mono 8-bit data was expected"),
    }
    // no sample belongs to the header
    assert!(matches!(load_sample_of(&file, &sample_header(0, 2, 2)), Ok(None)));
    // a sample without frames
    assert!(matches!(load_sample_of(&file, &sample_header(1, 0, 2)), Ok(None)));
    assert!(matches!(load_sample_of(&file, &sample_header(1, 2, 6)), Err(DecodeError::TruncatedInput)));
    assert!(matches!(load_sample_of(&file, &sample_header(1, 4, 2)), Err(DecodeError::TruncatedInput)));
    let all = load_samples(&file, &vec![sample_header(0, 2, 2), sample_header(1, 3, 2)]).unwrap();
    assert_eq!(all.len(), 2);
    assert!(all[0].is_none());
    assert_eq!(all[1].as_ref().unwrap().len(), 3);
    assert!(load_samples(&file, &vec![sample_header(1, 9, 0)]).is_err());
}

fn sample(len: usize) -> Sample {
    Sample {
        name: "s".to_string(),
        relative_pitch: 0,
        finetune: Amount::zero(),
        volume: Amount::one(),
        panning: Amount::ratio(1, 2),
        loop_flag: LoopType::No,
        loop_start: 0,
        loop_length: 0,
        sustain_loop_flag: LoopType::No,
        sustain_loop_start: 0,
        sustain_loop_length: 0,
        data: Some(SampleDataType::Mono8(vec![0; len])),
    }
}

#[test]
fn sample_positions() {
    let mut s = sample(100);
    assert_eq!(s.len(), 100);
    assert_eq!(s.bits(), 8);
    assert_eq!(s.meta_seek(5, false), 5);
    assert_eq!(s.meta_seek(100, false), 99);
    assert_eq!(s.meta_seek(1000, true), 99);
    s.loop_flag = LoopType::Forward;
    s.loop_start = 10;
    s.loop_length = 20;
    assert_eq!(s.meta_seek(29, false), 29);
    assert_eq!(s.meta_seek(30, false), 10);
    assert_eq!(s.meta_seek(55, false), 15);
    s.loop_flag = LoopType::PingPong;
    assert_eq!(s.meta_seek(29, false), 29);
    assert_eq!(s.meta_seek(30, false), 29);
    assert_eq!(s.meta_seek(31, false), 28);
    assert_eq!(s.meta_seek(49, false), 10);
    assert_eq!(s.meta_seek(50, false), 10);
    assert_eq!(s.meta_seek(51, false), 11);
    s.sustain_loop_flag = LoopType::Forward;
    s.sustain_loop_start = 0;
    s.sustain_loop_length = 4;
    assert_eq!(s.meta_seek(9, true), 1);
    assert_eq!(s.meta_seek(9, false), 9);
    let mut e = sample(0);
    e.data = None;
    assert_eq!(e.len(), 0);
    assert_eq!(e.bits(), 0);
    let t = Sample { data: Some(SampleDataType::Stereo16(vec![0; 10])), ..sample(0) };
    assert_eq!(t.len(), 5);
    assert_eq!(t.bits(), 16);
}

#[test]
fn sample_is_brought_into_range() {
    let mut s = sample(100);
    s.volume = Amount::ratio(3, 2);
    s.panning = Amount::ratio(-1, 2);
    s.finetune = Amount::ratio(-3, 2);
    s.relative_pitch = 120;
    s.loop_start = 90;
    s.loop_length = 20;
    s.sustain_loop_start = 101;
    s.sustain_loop_length = 150;
    s.clamp();
    assert_eq!(s.volume, Amount::one());
    assert_eq!(s.panning, Amount::zero());
    assert_eq!(s.finetune, Amount::ratio(-1, 1));
    assert_eq!(s.relative_pitch, 96);
    assert_eq!(s.loop_start, 90);
    assert_eq!(s.loop_length, 10);
    assert_eq!(s.sustain_loop_start, 0);
    assert_eq!(s.sustain_loop_length, 100);
    let mut t = sample(10);
    t.relative_pitch = -100;
    t.finetune = Amount::ratio(1, 2);
    t.loop_start = 10;
    t.loop_length = 0;
    t.clamp();
    assert_eq!(t.relative_pitch, -95);
    assert_eq!(t.finetune, Amount::ratio(1, 2));
    assert_eq!(t.loop_start, 10);
    assert_eq!(t.loop_length, 0);
    assert_eq!(Amount::ratio(5, 1).clamp_signed(), Amount::one());
}

fn key(period: u32) -> CacheKey {
    CacheKey { period, arp_note: 0, finetune: 0, semitone: false }
}

#[test]
fn cache_gives_up_what_was_used_least_recently() {
    let mut c = PeriodHelperCache::new(2);
    // a new cache holds the key of zeros
    assert_eq!(c.get(key(0)), Some(0));
    assert_eq!(c.get(key(1)), None);
    c.insert(key(1), 100);
    assert_eq!(c.get(key(1)), Some(100));
    assert_eq!(c.get(key(0)), Some(0));
    // key 1 was used before key 0
    c.insert(key(2), 200);
    assert_eq!(c.get(key(1)), None);
    assert_eq!(c.get(key(0)), Some(0));
    assert_eq!(c.get(key(2)), Some(200));
    c.insert(key(3), 300);
    assert_eq!(c.get(key(0)), None);
    assert_eq!(c.get(key(2)), Some(200));
    assert_eq!(c.get(key(3)), Some(300));
    assert_eq!(c.get(CacheKey { semitone: true, ..key(3) }), None);
}

#[test]
fn xt_track_is_written() {
    let track = vec![slot(Pitch::C4, Some(5), 0x40, 0x0A, 0x04), slot(Pitch::KeyOff, None, 0, 0, 0)];
    assert_eq!(
        XtTrack::save(&track),
        vec![1, 0, 2, 0, 49, 4, 0x40, 0x0A, 0x04, 97, 0, 0, 0, 0]
    );
    assert_eq!(XtTrack::save(&vec![]), vec![1, 0, 0, 0]);
    let long = vec![PatternSlot::default(); 258];
    let bytes = XtTrack::save(&long);
    assert_eq!(&bytes[..4], &[1, 0, 2, 1]);
    assert_eq!(bytes.len(), 4 + 5 * 258);
}

#[test]
fn names_are_cut_into_chunks() {
    let data = [7u8, 0, 0, 0, b'a', b'b', b'c', b'd', b'e', b'f', b'g', 9, 9];
    assert_eq!(
        ItXNames::load(&data, 3),
        Ok((vec![b"abc".to_vec(), b"def".to_vec(), b"g".to_vec()], 11))
    );
    assert_eq!(ItXNames::load(&data, 7), Ok((vec![b"abcdefg".to_vec()], 11)));
    assert_eq!(ItXNames::load(&data, 100), Ok((vec![b"abcdefg".to_vec()], 11)));
    assert_eq!(ItXNames::load(&[0, 0, 0, 0, 5], 4), Ok((vec![], 4)));
    assert_eq!(ItXNames::load(&[7, 0, 0], 4), Err(DecodeError::TruncatedInput));
    assert_eq!(ItXNames::load(&data[..10], 4), Err(DecodeError::TruncatedInput));
}

fn chunk(tag: &[u8; 4], content: &[u8]) -> Vec<u8> {
    let mut c = tag.to_vec();
    c.extend((content.len() as u32).to_le_bytes());
    c.extend(content);
    c
}

#[test]
fn plugin_chunks() {
    let mut settings = vec![0u8; 256];
    settings[0] = 1;
    settings[4 * 63 + 3] = 0x80;
    let mut info = vec![0u8; 32];
    info[0] = 0x11;
    info[4] = 0x22;
    info[8] = 0x33;
    info[12] = 0x44;
    info[16] = 0x55;
    info[28] = 0x66;
    let mut with_data = info.clone();
    with_data.extend([7, 8, 9]);
    let mut file = chunk(b"CHFX", &settings);
    file.extend(chunk(b"FX03", &with_data));
    file.extend(chunk(b"FX12", &info));
    let end = file.len();
    file.extend(b"XTPM\x04\x00\x00\x00rest");
    let (p, used) = Plugins::load(&file).unwrap();
    assert_eq!(used, end);
    assert_eq!(p.channel_settings[0], 1);
    assert_eq!(p.channel_settings[63], 0x8000_0000);
    assert_eq!(p.channel_settings[1], 0);
    assert_eq!(p.mix[3].info.id1, 0x11);
    assert_eq!(p.mix[3].info.id2, 0x22);
    assert_eq!(p.mix[3].info.input_routing, 0x33);
    assert_eq!(p.mix[3].info.output_routing, 0x44);
    assert_eq!(p.mix[3].info.reserved, [0x55, 0, 0, 0x66]);
    assert_eq!(p.mix[3].data, Some(vec![7, 8, 9]));
    assert_eq!(p.mix[12].info.id1, 0x11);
    assert_eq!(p.mix[12].data, None);
    assert_eq!(p.mix[0].info.id1, 0);
    // nothing to read
    let (q, used) = Plugins::load(b"1234567").unwrap();
    assert_eq!(used, 0);
    assert_eq!(q.channel_settings, vec![0u32; 64]);
    assert_eq!(Plugins::load(b"XTPM\x00\x00\x00\x00").unwrap().1, 0);
    // the size is looked at before the tag
    assert!(matches!(Plugins::load(b"XTPM....rest"), Err(DecodeError::MalformedField)));
}

#[test]
fn plugin_chunks_that_are_broken() {
    // the size is beyond the data
    assert!(matches!(Plugins::load(b"CHFX\xFF\x00\x00\x00"), Err(DecodeError::MalformedField)));
    // too few channel settings
    assert!(matches!(Plugins::load(&chunk(b"CHFX", &[0; 252])), Err(DecodeError::TruncatedInput)));
    let mut short = chunk(b"CHFX", &[0; 255]);
    short.extend([0; 9]);
    assert!(Plugins::load(&short).is_ok());
    // a plugin index beyond the plugins
    assert!(matches!(Plugins::load(&chunk(b"FX64", &[0; 32])), Err(DecodeError::MalformedField)));
    // a description that is not whole
    assert!(matches!(Plugins::load(&chunk(b"FX01", &[0; 31])), Err(DecodeError::TruncatedInput)));
    let mut odd = chunk(b"FX01", &[0; 31]);
    odd.extend([0; 8]);
    assert!(matches!(Plugins::load(&odd), Err(DecodeError::MalformedField)));
}
