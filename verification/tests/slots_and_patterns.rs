use xmrs::error::DecodeError;
use xmrs::it_pattern::ItPattern;
use xmrs::patternslot::PatternSlot;
use xmrs::pitch::Pitch;
use xmrs::xmpattern::{XmPattern, XmPatternHeader};

fn slot(note: Pitch, instrument: Option<usize>, volume: u8, fx: u8, param: u8) -> PatternSlot {
    PatternSlot { note, instrument, volume, effect_type: fx, effect_parameter: param }
}

#[test]
fn empty_slot() {
    assert_eq!(PatternSlot::default(), slot(Pitch::Empty, None, 0, 0, 0));
}

#[test]
fn amiga_periods() {
    assert_eq!(PatternSlot::amiga_pitch(0), Some(0));
    assert_eq!(PatternSlot::amiga_pitch(6848), Some(1));
    assert_eq!(PatternSlot::amiga_pitch(428), Some(49));
    assert_eq!(PatternSlot::amiga_pitch(56), Some(84));
    assert_eq!(PatternSlot::amiga_pitch(429), None);
    assert_eq!(PatternSlot::amiga_pitch(4095), None);
}

#[test]
fn amiga_cell() {
    // instrument 0x1F, period 428, effect 0xA, parameter 0x04
    let word: u32 = (0x1 << 28) | (428 << 16) | (0xF << 12) | (0xA << 8) | 0x04;
    assert_eq!(
        PatternSlot::deserialize(word),
        slot(Pitch::C4, Some(0x1E), 0, 0x0A, 0x04)
    );
}

#[test]
fn amiga_cell_without_note_or_instrument() {
    assert_eq!(PatternSlot::deserialize(0x0000_0C40), slot(Pitch::Empty, None, 0, 0x0C, 0x40));
    // a period that is no Amiga period gives no note
    let word: u32 = 429 << 16;
    assert_eq!(PatternSlot::deserialize(word), slot(Pitch::Empty, None, 0, 0, 0));
    assert_eq!(PatternSlot::deserialize(1712 << 16).note, Pitch::C2);
    assert_eq!(PatternSlot::deserialize(56 << 16).note, Pitch::B6);
}

#[test]
fn xm_cell_not_packed() {
    let r = PatternSlot::load_xm(&[49, 2, 0x40, 0x0A, 0x04, 99]);
    assert_eq!(r, Ok((5, slot(Pitch::C4, Some(1), 0x40, 0x0A, 0x04))));
}

#[test]
fn xm_cell_packed() {
    // note and effect parameter only
    let r = PatternSlot::load_xm(&[0b1001_0001, 97, 0x33, 7]);
    assert_eq!(r, Ok((3, slot(Pitch::KeyOff, None, 0, 0, 0x33))));
    // nothing at all
    assert_eq!(PatternSlot::load_xm(&[0x80]), Ok((1, PatternSlot::default())));
    // all five
    let r = PatternSlot::load_xm(&[0x9F, 1, 1, 0x10, 0x0F, 0x7D]);
    assert_eq!(r, Ok((6, slot(Pitch::C0, Some(0), 0x10, 0x0F, 0x7D))));
    // instrument and volume
    let r = PatternSlot::load_xm(&[0x86, 5, 0x20]);
    assert_eq!(r, Ok((3, slot(Pitch::Empty, Some(4), 0x20, 0, 0))));
}

#[test]
fn xm_cell_notes_out_of_range() {
    // 121 stands for no pitch
    assert_eq!(PatternSlot::load_xm(&[0x81, 121]).unwrap().1.note, Pitch::Empty);
    assert_eq!(PatternSlot::load_xm(&[0x81, 120]).unwrap().1.note, Pitch::B9);
    assert_eq!(PatternSlot::load_xm(&[0x81, 0]).unwrap().1.note, Pitch::Empty);
}

#[test]
fn xm_cell_truncated() {
    assert_eq!(PatternSlot::load_xm(&[]), Err(DecodeError::TruncatedInput));
    assert_eq!(PatternSlot::load_xm(&[49, 2, 0x40, 0x0A]), Err(DecodeError::TruncatedInput));
    assert_eq!(PatternSlot::load_xm(&[0x83, 49]), Err(DecodeError::TruncatedInput));
    assert_eq!(PatternSlot::load_xm(&[0x90]), Err(DecodeError::TruncatedInput));
}

#[test]
fn xm_pattern_header() {
    assert_eq!(
        XmPatternHeader::default(),
        XmPatternHeader { pattern_header_len: 9, packing_type: 0, num_rows: 0, pattern_data_size: 0 }
    );
    assert_eq!(XmPatternHeader::new(64).num_rows, 64);
    assert_eq!(XmPatternHeader::new(65536 + 3).num_rows, 3);
    let r = XmPatternHeader::load(&[9, 0, 0, 0, 0, 0x40, 0, 0x10, 0x01, 0xAA]);
    assert_eq!(
        r,
        Ok((
            9,
            XmPatternHeader {
                pattern_header_len: 9,
                packing_type: 0,
                num_rows: 64,
                pattern_data_size: 0x0110
            }
        ))
    );
    assert_eq!(XmPatternHeader::load(&[9, 0, 0, 0, 0, 0x40, 0, 0x10]), Err(DecodeError::TruncatedInput));
    assert_eq!(
        XmPatternHeader::load(&[12, 0, 0, 0, 0, 0x40, 0, 0x10, 0x01]),
        Err(DecodeError::TruncatedInput)
    );
}

#[test]
fn xm_pattern_new_is_empty() {
    let p = XmPattern::new(3, 2);
    assert_eq!(p.header.num_rows, 3);
    assert_eq!(p.pattern, vec![vec![PatternSlot::default(); 2]; 3]);
}

#[test]
fn xm_pattern_load() {
    // two channels, two rows; the data holds three cells: one full row and a
    // cell that no row takes up
    let mut data = vec![9u8, 0, 0, 0, 0, 2, 0, 8, 0];
    data.extend([0x81, 49, 0x80, 49, 1, 0, 0, 0]);
    data.push(0xEE);
    let (used, p) = XmPattern::load(&data, 2).unwrap();
    assert_eq!(used, 17);
    assert_eq!(
        p.pattern,
        vec![
            vec![slot(Pitch::C4, None, 0, 0, 0), PatternSlot::default()],
            vec![PatternSlot::default(), PatternSlot::default()],
        ]
    );
}

#[test]
fn xm_pattern_load_truncated() {
    // the header asks for seven bytes of cells, six are there
    let mut data = vec![9u8, 0, 0, 0, 0, 2, 0, 7, 0];
    data.extend([0x81, 49, 0x80, 49, 1, 0]);
    assert!(matches!(XmPattern::load(&data, 2), Err(DecodeError::TruncatedInput)));
    // the cells end within a cell
    let mut data = vec![9u8, 0, 0, 0, 0, 2, 0, 2, 0];
    data.extend([0x83, 49]);
    assert!(matches!(XmPattern::load(&data, 2), Err(DecodeError::TruncatedInput)));
}

#[test]
fn it_pattern_load() {
    let p = ItPattern::load(&[3, 0, 2, 0, 1, 2, 3, 4, 0xAA, 0xBB, 0xCC, 0xDD]).unwrap();
    assert_eq!(p.pattern_length, 3);
    assert_eq!(p.row_count, 2);
    assert_eq!(p.reserved, 0x04030201);
    assert_eq!(p.packed_data, vec![0xAA, 0xBB, 0xCC]);
    assert!(matches!(ItPattern::load(&[3, 0, 2, 0, 1, 2, 3]), Err(DecodeError::TruncatedInput)));
    assert!(matches!(
        ItPattern::load(&[3, 0, 2, 0, 1, 2, 3, 4, 0xAA, 0xBB]),
        Err(DecodeError::TruncatedInput)
    ));
    let e = ItPattern::load(&[0, 0, 0x20, 0, 0, 0, 0, 0]).unwrap();
    assert_eq!(e.row_count, 32);
    assert_eq!(e.packed_data, Vec::<u8>::new());
}

fn it_pattern(rows: i16, data: &[u8]) -> ItPattern {
    ItPattern {
        pattern_length: data.len() as u16,
        row_count: rows,
        reserved: 0,
        packed_data: data.to_vec(),
    }
}

#[test]
fn it_pattern_unpack() {
    // row 0: channel 0 with all four fields; channel 2 with a note
    // row 1: channel 0 with the last field mask turned to "as above" for
    //        note and effect, channel 2 reuses its field mask
    let data = [
        0x81, 0x0F, 60, 3, 64, 0x04, 0x12, // channel 0
        0x83, 0x01, 255, // channel 2: note off
        0x00, // end of row 0
        0x81, 0x90, // channel 0: note and effect as above
        0x03, 254, // channel 2: field mask as before, note cut
        0x00,
    ];
    let rows = it_pattern(2, &data).unpack().unwrap();
    assert_eq!(rows.len(), 2);
    assert_eq!(rows[0].len(), 64);
    assert_eq!(rows[0][0], slot(Pitch::C5, Some(2), 64, 0x04, 0x12));
    assert_eq!(rows[0][2], slot(Pitch::KeyOff, None, 0, 0, 0));
    assert_eq!(rows[0][1], PatternSlot::default());
    assert_eq!(rows[1][0], slot(Pitch::C5, None, 0, 0x04, 0x12));
    assert_eq!(rows[1][2], slot(Pitch::Cut, None, 0, 0, 0));
}

#[test]
fn it_pattern_as_above_in_the_first_row_is_empty() {
    let rows = it_pattern(1, &[0x81, 0xF0, 0x00]).unpack().unwrap();
    assert_eq!(rows[0][0], PatternSlot::default());
}

#[test]
fn it_pattern_stray_notes() {
    let rows = it_pattern(1, &[0x81, 0x01, 240, 0x82, 0x01, 246]).unpack().unwrap();
    assert_eq!(rows[0][0].note, Pitch::Empty);
    assert_eq!(rows[0][1].note, Pitch::Empty);
}

#[test]
fn it_pattern_data_ends_at_a_channel_mask() {
    let rows = it_pattern(3, &[0x81, 0x01, 60]).unpack().unwrap();
    assert_eq!(rows.len(), 3);
    assert_eq!(rows[0][0].note, Pitch::C5);
    assert_eq!(rows[1], vec![PatternSlot::default(); 64]);
    assert_eq!(rows[2], vec![PatternSlot::default(); 64]);
    let none = it_pattern(2, &[]).unpack().unwrap();
    assert_eq!(none, vec![vec![PatternSlot::default(); 64]; 2]);
}

#[test]
fn it_pattern_more_data_than_rows() {
    let rows = it_pattern(1, &[0x00, 0x81, 0x01, 60]).unpack().unwrap();
    assert_eq!(rows, vec![vec![PatternSlot::default(); 64]]);
    assert_eq!(it_pattern(0, &[0x81]).unpack().unwrap().len(), 0);
}

#[test]
fn it_pattern_truncated_cell() {
    assert_eq!(it_pattern(1, &[0x81]).unpack(), Err(DecodeError::TruncatedInput));
    assert_eq!(it_pattern(1, &[0x81, 0x01]).unpack(), Err(DecodeError::TruncatedInput));
    assert_eq!(it_pattern(1, &[0x81, 0x08, 0x04]).unpack(), Err(DecodeError::TruncatedInput));
    assert_eq!(it_pattern(1, &[0x81, 0x06, 1]).unpack(), Err(DecodeError::TruncatedInput));
}

#[test]
fn it_pattern_malformed_note() {
    assert_eq!(it_pattern(1, &[0x81, 0x01, 200]).unpack(), Err(DecodeError::MalformedField));
    assert_eq!(it_pattern(1, &[0x81, 0x01, 120]).unpack(), Err(DecodeError::MalformedField));
}

#[test]
fn it_pattern_negative_row_count() {
    assert_eq!(it_pattern(-1, &[]).unpack(), Err(DecodeError::MalformedField));
}

#[test]
fn it_pattern_channel_of_a_mask() {
    // the mask 64 names channel 63, the mask 65 names channel 0 again
    let rows = it_pattern(1, &[0xC0, 0x04, 9, 0xC1, 0x04, 7]).unpack().unwrap();
    assert_eq!(rows[0][63].volume, 9);
    assert_eq!(rows[0][0].volume, 7);
}
