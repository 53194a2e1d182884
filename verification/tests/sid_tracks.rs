use xmrs::error::DecodeError;
use xmrs::pattern_helper::{note_of, patterns_equal, PatternHelper};
use xmrs::patternslot::PatternSlot;
use xmrs::pitch::Pitch;

fn helper(version: usize, tracks: Vec<Vec<u8>>) -> PatternHelper {
    PatternHelper::new(version, vec![vec![0, 1]], vec![vec![0, 255], vec![1, 255]], tracks)
}

fn slot(note: Pitch, instrument: Option<usize>, volume: u8, fx: u8, param: u8) -> PatternSlot {
    PatternSlot { note, instrument, volume, effect_type: fx, effect_parameter: param }
}

#[test]
fn notes_beyond_the_table() {
    assert_eq!(note_of(0), Pitch::C0);
    assert_eq!(note_of(96), Pitch::C8);
    assert_eq!(note_of(128 + 48), Pitch::C4);
    assert_eq!(note_of(97), Pitch::C0);
    assert_eq!(note_of(98), Pitch::C1);
    assert_eq!(note_of(100), Pitch::Ds0);
    assert_eq!(note_of(104), Pitch::F5);
    assert_eq!(note_of(105), Pitch::F5);
    assert_eq!(note_of(107), Pitch::Fs0);
    assert_eq!(note_of(127), Pitch::C0);
    // the others keep their low six bits: 99 = 64 + 35
    assert_eq!(note_of(99), Pitch::B2);
}

#[test]
fn track_with_notes_and_lengths() {
    // a released note of two more rows; a note that is held, with an instrument
    let h = helper(15, vec![]);
    let track = h.get_track(&vec![0x02, 48, 0xA0, 5, 50, 255]).unwrap();
    assert_eq!(
        track,
        vec![
            slot(Pitch::C4, None, 0x50, 0, 0),
            PatternSlot::default(),
            PatternSlot::default(),
            slot(Pitch::D4, Some(5), 0, 0, 0),
        ]
    );
    assert_eq!(h.get_track(&vec![255, 1, 2]).unwrap(), vec![]);
}

#[test]
fn released_cells_take_the_last_instrument() {
    let h = helper(15, vec![]);
    // an instrument is set on a held note; a released note follows; then a
    // cell without a note byte, released
    let track = h.get_track(&vec![0xA0, 7, 48, 0x00, 50, 0x40, 255]).unwrap();
    assert_eq!(
        track,
        vec![
            slot(Pitch::C4, Some(7), 0, 0, 0),
            slot(Pitch::D4, Some(7), 0x50, 0, 0),
            slot(Pitch::Empty, Some(7), 0x10, 0, 0),
        ]
    );
    // a cell without a note byte that is held is empty
    assert_eq!(h.get_track(&vec![0x61, 255]).unwrap(), vec![PatternSlot::default(); 2]);
}

#[test]
fn slides_by_version() {
    // version 10: bits 1 to 6 are the speed, bit 0 says down
    let h = helper(10, vec![]);
    assert_eq!(
        h.get_track(&vec![0xA0, 0x80 | 0x0A, 48, 255]).unwrap(),
        vec![slot(Pitch::C4, None, 0, 1, 5)]
    );
    assert_eq!(
        h.get_track(&vec![0xA0, 0x80 | 0x0B, 48, 255]).unwrap(),
        vec![slot(Pitch::C4, None, 0, 2, 5)]
    );
    assert_eq!(
        h.get_track(&vec![0xA0, 0x81, 48, 255]).unwrap(),
        vec![slot(Pitch::C4, None, 0, 0, 0)]
    );
    // version 15 passes slides over
    let h = helper(15, vec![]);
    assert_eq!(
        h.get_track(&vec![0xA0, 0x8A, 48, 255]).unwrap(),
        vec![slot(Pitch::C4, None, 0, 0, 0)]
    );
    // other versions: two bytes, the speed is the low byte, bit 6 of it says down
    let h = helper(20, vec![]);
    assert_eq!(
        h.get_track(&vec![0xA0, 0x81, 0x05, 48, 255]).unwrap(),
        vec![slot(Pitch::C4, None, 0, 1, 5)]
    );
    assert_eq!(
        h.get_track(&vec![0xA0, 0x80, 0x45, 48, 255]).unwrap(),
        vec![slot(Pitch::C4, None, 0, 2, 0x45)]
    );
    assert_eq!(
        h.get_track(&vec![0xA0, 0x80, 0x00, 48, 255]).unwrap(),
        vec![slot(Pitch::C4, None, 0, 0, 0)]
    );
}

#[test]
fn slide_at_the_end_of_a_track() {
    // the slide has no second byte and one more: the cell is read again from
    // the byte before it, which is taken as the note
    let h = helper(20, vec![]);
    let track = h.get_track(&vec![0x20, 50, 0xA0, 0x81, 255]).unwrap();
    assert_eq!(
        track,
        vec![
            slot(Pitch::D4, None, 0, 0, 0),
            // the head byte 0xA0 is read as the note 32
            slot(Pitch::Gs2, None, 0, 0, 0),
            // then the slide byte 0x81 is read as a head byte, and as its own note
            slot(Pitch::Cs0, None, 0x50, 0, 0),
            PatternSlot::default(),
        ]
    );
    // at the start of a track there is no byte before the cell
    assert_eq!(h.get_track(&vec![0xA0, 0x81, 255]), Err(DecodeError::MalformedField));
}

#[test]
fn tracks_without_an_end() {
    let h = helper(15, vec![]);
    assert_eq!(h.get_track(&vec![]), Err(DecodeError::TruncatedInput));
    assert_eq!(h.get_track(&vec![0x00, 48]), Err(DecodeError::TruncatedInput));
    assert_eq!(h.get_track(&vec![0x00]), Err(DecodeError::TruncatedInput));
    assert_eq!(h.get_track(&vec![0xA0, 5]), Err(DecodeError::TruncatedInput));
    assert_eq!(h.get_track(&vec![0xA0]), Err(DecodeError::TruncatedInput));
}

#[test]
fn all_tracks_and_orders() {
    let h = helper(15, vec![vec![0x00, 48, 255], vec![255]]);
    assert_eq!(h.get_tracks().unwrap(), vec![vec![slot(Pitch::C4, None, 0x50, 0, 0)], vec![]]);
    let order = h.get_pattern_order(0).unwrap();
    assert_eq!(order, vec![&vec![0u8, 255], &vec![1u8, 255]]);
    assert!(h.get_pattern_order(1).is_none());
    let broken = helper(15, vec![vec![255], vec![0x00]]);
    assert_eq!(broken.get_tracks(), Err(DecodeError::TruncatedInput));
    let odd = PatternHelper::new(15, vec![vec![0, 2]], vec![vec![0], vec![1]], vec![]);
    assert!(odd.get_pattern_order(0).is_none());
}

fn pattern(rows: usize, volume: u8) -> Vec<Vec<PatternSlot>> {
    let mut p = vec![vec![PatternSlot::default(); 3]; rows];
    if rows > 0 {
        p[rows - 1][2].volume = volume;
    }
    p
}

#[test]
fn one_of_each_pattern_is_left() {
    let source = vec![pattern(2, 1), pattern(2, 2), pattern(2, 1), pattern(3, 1), pattern(2, 2)];
    let (dest, order) = PatternHelper::cleanup_patterns(&source);
    assert_eq!(dest, vec![pattern(2, 1), pattern(2, 2), pattern(3, 1)]);
    assert_eq!(order, vec![0, 1, 0, 2, 1]);
    let (none, no_order) = PatternHelper::cleanup_patterns(&vec![]);
    assert_eq!(none.len(), 0);
    assert_eq!(no_order.len(), 0);
    assert!(patterns_equal(&pattern(2, 1), &pattern(2, 1)));
    assert!(!patterns_equal(&pattern(2, 1), &pattern(2, 2)));
    assert!(!patterns_equal(&pattern(2, 1), &pattern(3, 1)));
}

#[test]
fn large_patterns_are_split() {
    let mut patterns = vec![pattern(10, 1), pattern(600, 2), pattern(256, 3), pattern(257, 4), pattern(0, 0)];
    PatternHelper::split_large_patterns(&mut patterns);
    let lengths: Vec<usize> = patterns.iter().map(|p| p.len()).collect();
    assert_eq!(lengths, vec![10, 256, 256, 88, 256, 256, 1, 0]);
    assert_eq!(patterns[0], pattern(10, 1));
    assert_eq!(patterns[3][87][2].volume, 2);
    assert_eq!(patterns[1], vec![vec![PatternSlot::default(); 3]; 256]);
    assert_eq!(patterns[4], pattern(256, 3));
    assert_eq!(patterns[6], pattern(1, 4));
}
