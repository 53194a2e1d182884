use xmrs::amount::{Amount, AMOUNT_ONE};
use xmrs::error::DecodeError;
use xmrs::orders_helper::parse_orders;
use xmrs::pitch::Pitch;
use xmrs::xorshift::{XorShift16, XorShift32, XorShift64, XorShift8};

#[test]
fn it_works() {
    assert_eq!(42, 42);
}

#[test]
fn amount_ratio_is_exact() {
    assert_eq!(Amount::ratio(1, 1).raw, AMOUNT_ONE);
    assert_eq!(Amount::ratio(1, 64).raw, 1020);
    assert_eq!(Amount::ratio(-3, 16).raw, -12240);
    assert_eq!(Amount::ratio(2, 3).raw, 43520);
    assert_eq!(Amount::ratio(255, 255).raw, AMOUNT_ONE);
    assert_eq!(Amount::ratio(7, 256).raw, 1785);
    assert_eq!(Amount::zero().raw, 0);
    assert_eq!(Amount::one().raw, 65280);
}

#[test]
fn amount_sum_saturates() {
    let big = Amount { raw: i64::MAX - 1 };
    assert_eq!(big.plus(&Amount { raw: 5 }).raw, i64::MAX);
    let low = Amount { raw: i64::MIN + 1 };
    assert_eq!(low.plus(&Amount { raw: -5 }).raw, i64::MIN);
    assert_eq!(Amount::ratio(2, 1).plus(&Amount::ratio(-1, 2)), Amount::ratio(3, 2));
    assert_eq!(Amount { raw: i64::MIN }.negated().raw, i64::MAX);
    assert_eq!(Amount::ratio(1, 2).negated(), Amount::ratio(-1, 2));
}

#[test]
fn amount_clamp_unit() {
    assert_eq!(Amount::ratio(3, 2).clamp_unit(), Amount::one());
    assert_eq!(Amount::ratio(-1, 2).clamp_unit(), Amount::zero());
    assert_eq!(Amount::ratio(1, 4).clamp_unit(), Amount::ratio(1, 4));
    assert!(Amount::zero().is_zero());
    assert!(!Amount::ratio(1, 255).is_zero());
}

#[test]
fn pitch_values_round_trip() {
    let mut v: u16 = 0;
    while v < 256 {
        let b = v as u8;
        match Pitch::try_from(b) {
            Ok(p) => {
                assert!(b < 120 || b >= 253);
                assert_eq!(p.value(), b);
            }
            Err(e) => {
                assert!(b >= 120 && b < 253);
                assert_eq!(e, DecodeError::MalformedField);
            }
        }
        v += 1;
    }
}

#[test]
fn pitch_marks_and_names() {
    assert!(Pitch::Empty.is_none());
    assert!(!Pitch::C4.is_none());
    assert!(Pitch::KeyOff.is_keyoff());
    assert!(!Pitch::Cut.is_keyoff());
    assert!(Pitch::B9.is_valid());
    assert!(!Pitch::Empty.is_valid());
    assert!(!Pitch::Cut.is_valid());
    assert_eq!(Pitch::C0.value(), 0);
    assert_eq!(Pitch::C4.value(), 48);
    assert_eq!(Pitch::B9.value(), 119);
    assert_eq!(Pitch::Empty.value(), 253);
    assert_eq!(Pitch::Cut.value(), 254);
    assert_eq!(Pitch::KeyOff.value(), 255);
    assert_eq!(Pitch::default(), Pitch::Empty);
    assert_eq!(Pitch::Cs4.text(), "C#4");
    assert_eq!(Pitch::A0.text(), "A-0");
    assert_eq!(Pitch::Empty.text(), "---");
    assert_eq!(Pitch::KeyOff.text(), "===");
}

#[test]
fn orders_split_at_marks() {
    let r = parse_orders(&[0, 1, 2, 255, 3, 254, 254, 4, 5]);
    assert_eq!(r, vec![vec![0usize, 1, 2], vec![3], vec![4, 5]]);
}

#[test]
fn orders_without_patterns_give_no_song() {
    assert_eq!(parse_orders(&[]), Vec::<Vec<usize>>::new());
    assert_eq!(parse_orders(&[255, 254, 255]), Vec::<Vec<usize>>::new());
    assert_eq!(parse_orders(&[253]), vec![vec![253usize]]);
}

#[test]
fn xorshift_default_seeds() {
    assert_eq!(XorShift8::new(None).get_seed(), 251);
    assert_eq!(XorShift16::new(None).get_seed(), 65521);
    assert_eq!(XorShift32::new(None).get_seed(), 4294967291);
    assert_eq!(XorShift64::new(None).get_seed(), 9223372036854775783);
    assert_eq!(XorShift32::new(Some(7)).get_seed(), 7);
}

#[test]
fn xorshift_steps() {
    let mut g = XorShift32::new(Some(1));
    // 1 ^ (1 << 13) = 8193; 8193 ^ (8193 >> 17) = 8193; 8193 ^ (8193 << 5) = 270369
    assert_eq!(g.next(), Some(270369));
    assert_eq!(g.get_seed(), 270369);
    let mut h = XorShift8::new(Some(1));
    // 1 ^ 128 = 129; 129 ^ 16 = 145; 145 ^ (145 << 5 = 0x20) = 177
    assert_eq!(h.next(), Some(177));
    let mut k = XorShift16::new(Some(1));
    // 1 ^ 128 = 129; 129 ^ 0 = 129; 129 ^ (129 << 13 = 0x2000) = 8321
    assert_eq!(k.next(), Some(8321));
    let mut m = XorShift64::new(Some(1));
    // 1 ^ 8192 = 8193; 8193 ^ (8193 >> 7 = 64) = 8257; 8257 ^ (8257 << 17) = 1082269761
    assert_eq!(m.next(), Some(1082269761));
}

#[test]
fn xorshift_is_repeatable() {
    let mut a = XorShift32::new(None);
    let mut b = XorShift32::new(None);
    let mut i = 0;
    while i < 100 {
        assert_eq!(a.next(), b.next());
        i += 1;
    }
}
