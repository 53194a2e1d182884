use xmrs::amount::Amount;
use xmrs::bitreader::BitReader;
use xmrs::error::DecodeError;
use xmrs::it_sample_header::ItSampleHeader;
use xmrs::sample::{LoopType, SampleDataType};
use xmrs::waveform::Waveform;

fn header(flags: u8, convert_flags: u8, sample_length: u32) -> ItSampleHeader {
    ItSampleHeader {
        id: [0x49, 0x4D, 0x50, 0x53],
        dos_filename: String::new(),
        reserved_byte: 0,
        global_volume: 64,
        flags,
        default_volume: 64,
        sample_name: String::new(),
        convert_flags,
        default_pan: 0,
        sample_length,
        loop_beginning: 0,
        loop_end: 0,
        c5_speed: 8363,
        sustain_loop_beginning: 0,
        sustain_loop_end: 0,
        sample_pointer: 0,
        vibrato_speed: 16,
        vibrato_depth: 32,
        vibrato_sweep: 64,
        vibrato_waveform: 2,
    }
}

#[test]
fn bit_reader_reads_low_bit_first() {
    let data = [0b1010_0101u8, 0b0000_1111];
    let mut r = BitReader::new(&data);
    assert!(!r.is_empty());
    assert_eq!(r.read_bits(1), Some(1));
    assert_eq!(r.read_bits(2), Some(0b10));
    assert_eq!(r.read_bits(5), Some(0b10100));
    assert_eq!(r.read_bits(8), Some(0b0000_1111));
    assert!(r.is_empty());
    assert_eq!(r.read_bits(1), None);
    assert!(r.is_empty());
}

#[test]
fn bit_reader_crosses_bytes() {
    let data = [0xFFu8, 0x00, 0xAB, 0xCD, 0xEF];
    let mut r = BitReader::new(&data);
    assert_eq!(r.read_bits(4), Some(0xF));
    assert_eq!(r.read_bits(8), Some(0x0F));
    assert_eq!(r.read_bits(4), Some(0x0));
    assert_eq!(r.read_bits(24), Some(0xEFCDAB));
    assert!(r.is_empty());
}

#[test]
fn bit_reader_reads_32_bits() {
    let data = [0x78u8, 0x56, 0x34, 0x12, 0xFF];
    let mut r = BitReader::new(&data);
    assert_eq!(r.read_bits(32), Some(0x12345678));
    assert_eq!(r.read_bits(8), Some(0xFF));
}

#[test]
fn bit_reader_refuses_bad_widths() {
    let data = [0x01u8];
    let mut r = BitReader::new(&data);
    assert_eq!(r.read_bits(0), None);
    assert_eq!(r.read_bits(33), None);
    assert!(!r.is_empty());
    assert_eq!(r.read_bits(8), Some(1));
}

#[test]
fn bit_reader_short_read_ends_at_the_end() {
    let data = [0x01u8];
    let mut r = BitReader::new(&data);
    assert_eq!(r.read_bits(3), Some(1));
    assert_eq!(r.read_bits(9), None);
    assert!(r.is_empty());
    assert_eq!(r.read_bits(1), None);
}

#[test]
fn bit_reader_on_nothing_is_empty() {
    let data: [u8; 0] = [];
    let mut r = BitReader::new(&data);
    assert!(r.is_empty());
    assert_eq!(r.read_bits(1), None);
}

#[test]
fn bit_reader_reproduces_the_bits() {
    let data = [0x3Cu8, 0xA7, 0x19, 0xE0, 0x55, 0x81];
    let widths = [3u8, 7, 1, 12, 5, 9, 11];
    let mut r = BitReader::new(&data);
    let mut pos = 0usize;
    for w in widths {
        let v = r.read_bits(w).unwrap();
        let mut k = 0usize;
        while k < w as usize {
            let bit = (data[(pos + k) / 8] >> ((pos + k) % 8)) & 1;
            assert_eq!(((v >> k) & 1) as u8, bit);
            k += 1;
        }
        pos += w as usize;
    }
    assert_eq!(pos, 48);
    assert!(r.is_empty());
}

#[test]
fn header_flags() {
    let h = header(0b0101_1011, 0b0010_0101, 10);
    assert!(h.is_associated_sample());
    assert!(h.is_16bits());
    assert!(!h.is_stereo());
    assert!(h.is_compressed());
    assert!(h.is_use_loop());
    assert!(!h.is_use_sustain_loop());
    assert!(h.is_pingpong());
    assert!(!h.is_pingpong_sustain_loop());
    assert!(h.is_samples_signed());
    assert!(!h.is_samples_be());
    assert!(h.is_double_delta_encoded());
    assert!(!h.is_byte_delta_encoded());
    assert!(!h.use_12bit_tx_wave());
    assert!(h.prompt_stereo());
    // a ping-pong bit without its loop does not count
    let g = header(0b1100_0000, 0, 0);
    assert!(!g.is_pingpong());
    assert!(!g.is_pingpong_sustain_loop());
}

#[test]
fn unpack_8bit_plain_deltas() {
    // three values of 9 bits, each 1: bits 0, 9 and 18 are set
    let block = [4u8, 0, 0x01, 0x02, 0x04, 0x00];
    let h = header(0b0000_1001, 0b0000_0001, 3);
    assert_eq!(h.it_unpack_8bit(&block, 3), Ok(vec![1i8, 2, 3]));
    let d = header(0b0000_1001, 0b0000_0101, 3);
    assert_eq!(d.it_unpack_8bit(&block, 3), Ok(vec![1i8, 3, 6]));
}

#[test]
fn unpack_8bit_twice_gives_the_same() {
    let block = [4u8, 0, 0x01, 0x02, 0x04, 0x00];
    let h = header(0b0000_1001, 0b0000_0001, 3);
    assert_eq!(h.it_unpack_8bit(&block, 3), h.it_unpack_8bit(&block, 3));
}

#[test]
fn unpack_8bit_negative_delta_wraps() {
    // one value of 9 bits: 0xFF, which is -1
    let block = [2u8, 0, 0xFF, 0x00];
    let h = header(0b0000_1001, 0b0000_0001, 1);
    assert_eq!(h.it_unpack_8bit(&block, 1), Ok(vec![-1i8]));
}

#[test]
fn unpack_8bit_width_change_from_nine() {
    // 9 bits: 256 + 6 = 262 sets the width to 263 mod 256 = 7;
    // then 7 bits: 0b1111111 = -1 as a signed number of 7 bits
    // bit stream: 262 = 0b1_0000_0110 (low first), then 127
    // bits 0..9: 0,1,1,0,0,0,0,0,1 ; bits 9..16: 1,1,1,1,1,1,1
    let block = [2u8, 0, 0b0000_0110, 0b1111_1111];
    let h = header(0b0000_1001, 0b0000_0001, 1);
    assert_eq!(h.it_unpack_8bit(&block, 1), Ok(vec![-1i8]));
}

#[test]
fn unpack_8bit_mark_of_a_narrow_width() {
    // 9 bits: 256 + 3 = 259 sets the width to 4
    // 4 bits: 0b1000 is the mark; the next 3 bits, 0b100 = 4, give 4 + 2 = 6
    //   (4 + 1 is not below the old width 4)
    // 6 bits: 0b000101 = 5
    // stream, low bit first: 110000001 0001 001 101000
    let bits = "110000001" .to_string() + "0001" + "001" + "101000";
    let mut bytes = vec![0u8; (bits.len() + 7) / 8];
    for (i, c) in bits.chars().enumerate() {
        if c == '1' {
            bytes[i / 8] |= 1 << (i % 8);
        }
    }
    let mut block = vec![bytes.len() as u8, 0];
    block.extend(bytes);
    let h = header(0b0000_1001, 0b0000_0001, 1);
    assert_eq!(h.it_unpack_8bit(&block, 1), Ok(vec![5i8]));
}

#[test]
fn unpack_8bit_window_of_a_middle_width() {
    // 9 bits: 256 + 7 = 263 sets the width to 8
    // 8 bits: the window of width 8 is above 123 up to 131; 126 gives 126 - 123 = 3
    // 3 bits: 0b011 = 3, no mark (the mark is 0b100), a value: 3
    let bits = "111000001".to_string() + "01111110" + "110";
    let mut bytes = vec![0u8; (bits.len() + 7) / 8];
    for (i, c) in bits.chars().enumerate() {
        if c == '1' {
            bytes[i / 8] |= 1 << (i % 8);
        }
    }
    let mut block = vec![bytes.len() as u8, 0];
    block.extend(bytes);
    let h = header(0b0000_1001, 0b0000_0001, 1);
    assert_eq!(h.it_unpack_8bit(&block, 1), Ok(vec![3i8]));
}

#[test]
fn unpack_8bit_wide_width_gives_zeros() {
    // 9 bits: 256 + 9 = 265 sets the width to 10; every read of 10 bits then gives 0
    let block = [4u8, 0, 0b0000_1001, 0b0000_0001, 0xFF, 0xFF];
    let h = header(0b0000_1001, 0b0000_0001, 2);
    assert_eq!(h.it_unpack_8bit(&block, 2), Ok(vec![0i8, 0]));
}

fn eight_ones_block() -> Vec<u8> {
    // eight values of 9 bits, each 1, fill nine bytes to the last bit
    let mut bytes = vec![0u8; 9];
    let mut k = 0;
    while k < 8 {
        bytes[(9 * k) / 8] |= 1 << ((9 * k) % 8);
        k += 1;
    }
    let mut block = vec![9u8, 0];
    block.extend(bytes);
    block
}

#[test]
fn unpack_8bit_two_blocks() {
    let mut data = eight_ones_block();
    data.extend([2u8, 0, 0x07, 0x00]);
    let h = header(0b0000_1001, 0b0000_0001, 9);
    // each block starts anew: the sums do not carry over
    assert_eq!(h.it_unpack_8bit(&data, 9), Ok(vec![1i8, 2, 3, 4, 5, 6, 7, 8, 7]));
}

#[test]
fn unpack_8bit_empty_block_is_passed_over() {
    let data = [0u8, 0, 2, 0, 0x07, 0x00];
    let h = header(0b0000_1001, 0b0000_0001, 1);
    assert_eq!(h.it_unpack_8bit(&data, 1), Ok(vec![7i8]));
}

#[test]
fn unpack_8bit_truncated_header() {
    let h = header(0b0000_1001, 0b0000_0001, 1);
    assert_eq!(h.it_unpack_8bit(&[], 1), Err(DecodeError::TruncatedInput));
    assert_eq!(h.it_unpack_8bit(&[4], 1), Err(DecodeError::TruncatedInput));
}

#[test]
fn unpack_8bit_truncated_block() {
    let h = header(0b0000_1001, 0b0000_0001, 1);
    assert_eq!(h.it_unpack_8bit(&[4, 0, 1, 2], 1), Err(DecodeError::TruncatedInput));
}

#[test]
fn unpack_8bit_exhausted_bits() {
    let h = header(0b0000_1001, 0b0000_0001, 1);
    // a block of one byte cannot hold a value of 9 bits
    assert_eq!(h.it_unpack_8bit(&[1, 0, 1], 1), Err(DecodeError::DecodeExhaustion));
}

#[test]
fn unpack_8bit_short_stream_is_an_error() {
    // one block with one value and seven bits more, two values wanted
    let h = header(0b0000_1001, 0b0000_0001, 2);
    assert_eq!(h.it_unpack_8bit(&[2, 0, 0x05, 0x00], 2), Err(DecodeError::DecodeExhaustion));
    // a block that ends with its eighth value, nine values wanted, nothing follows
    assert_eq!(h.it_unpack_8bit(&eight_ones_block(), 9), Err(DecodeError::TruncatedInput));
}

#[test]
fn unpack_8bit_width_zero_is_malformed() {
    // 9 bits: 511 sets the width to 512 mod 256 = 0
    let h = header(0b0000_1001, 0b0000_0001, 1);
    assert_eq!(
        h.it_unpack_8bit(&[3, 0, 0xFF, 0x01, 0x00], 1),
        Err(DecodeError::MalformedField)
    );
}

#[test]
fn unpack_nothing_wanted() {
    let h = header(0b0000_1001, 0b0000_0001, 0);
    assert_eq!(h.it_unpack_8bit(&[], 0), Ok(vec![]));
    assert_eq!(h.it_unpack_16bit(&[], 0), Ok(vec![]));
}

#[test]
fn unpack_16bit_plain_deltas() {
    // two values of 17 bits: 1000 and 0x1FFFF & 0xFFFF... the second is 0xFFFF = -1
    // 1000 = 0b0_0000_0011_1110_1000 ; 0xFFFF = 16 ones and a zero
    let mut bits = String::new();
    let mut k = 0;
    while k < 17 {
        bits.push(if (1000u32 >> k) & 1 == 1 { '1' } else { '0' });
        k += 1;
    }
    k = 0;
    while k < 17 {
        bits.push(if (0xFFFFu32 >> k) & 1 == 1 { '1' } else { '0' });
        k += 1;
    }
    let mut bytes = vec![0u8; (bits.len() + 7) / 8];
    for (i, c) in bits.chars().enumerate() {
        if c == '1' {
            bytes[i / 8] |= 1 << (i % 8);
        }
    }
    let mut block = vec![bytes.len() as u8, 0];
    block.extend(bytes);
    let h = header(0b0000_1011, 0b0000_0001, 2);
    assert_eq!(h.it_unpack_16bit(&block, 2), Ok(vec![1000i16, 999]));
    let d = header(0b0000_1011, 0b0000_0101, 2);
    assert_eq!(d.it_unpack_16bit(&block, 2), Ok(vec![1000i16, 1999]));
}

#[test]
fn convert_8bit_unsigned_and_stereo() {
    let mono_signed = header(0, 0b0000_0001, 4);
    assert_eq!(mono_signed.convert_8bit_sample(&[1, -2, 3, -4]), vec![1i8, -2, 3, -4]);
    let mono_unsigned = header(0, 0, 4);
    assert_eq!(mono_unsigned.convert_8bit_sample(&[0, -128, 127, -1]), vec![-128i8, 0, -1, 127]);
    let stereo = header(0b0000_0100, 0b0000_0001, 2);
    assert_eq!(stereo.convert_8bit_sample(&[1, 2, 10, 20]), vec![1i8, 10, 2, 20]);
    // an odd value at the end has no partner and is left out
    assert_eq!(stereo.convert_8bit_sample(&[1, 2, 10, 20, 99]), vec![1i8, 10, 2, 20]);
}

#[test]
fn convert_16bit_unsigned_and_stereo() {
    let mono_unsigned = header(0b0000_0010, 0, 3);
    assert_eq!(mono_unsigned.convert_16bit_sample(&[0, -32768, 32767]), vec![-32768i16, 0, -1]);
    let stereo = header(0b0000_0110, 0b0000_0001, 2);
    assert_eq!(stereo.convert_16bit_sample(&[1, 2, 10, 20]), vec![1i16, 10, 2, 20]);
}

#[test]
fn words_by_byte_order() {
    let le = header(0b0000_0010, 0b0000_0001, 2);
    assert_eq!(le.convert_u8_to_i16_vec(&[0x34, 0x12, 0xFF, 0xFF]), Ok(vec![0x1234i16, -1]));
    let be = header(0b0000_0010, 0b0000_0011, 2);
    assert_eq!(be.convert_u8_to_i16_vec(&[0x12, 0x34, 0x80, 0x00]), Ok(vec![0x1234i16, -32768]));
    assert_eq!(le.convert_u8_to_i16_vec(&[1, 2, 3]), Err(DecodeError::MalformedField));
}

#[test]
fn sample_data_plain_8bit() {
    let h = header(0b0000_0001, 0b0000_0001, 3);
    match h.get_sample_data(&[1, 0xFF, 0x80, 77]) {
        Ok(SampleDataType::Mono8(v)) => assert_eq!(v, vec![1i8, -1, -128]),
        _ => panic!("mono 8-bit data was expected"),
    }
    assert!(matches!(h.get_sample_data(&[1, 2]), Err(DecodeError::TruncatedInput)));
}

#[test]
fn sample_data_plain_16bit_stereo() {
    let h = header(0b0000_0111, 0b0000_0001, 2);
    let data = [1u8, 0, 2, 0, 10, 0, 20, 0];
    match h.get_sample_data(&data) {
        Ok(d) => {
            assert_eq!(d.len(), 2);
            match d {
                SampleDataType::Stereo16(v) => assert_eq!(v, vec![1i16, 10, 2, 20]),
                _ => panic!("stereo 16-bit data was expected"),
            }
        }
        Err(_) => panic!("the data is long enough"),
    }
    assert!(matches!(h.get_sample_data(&data[..7]), Err(DecodeError::TruncatedInput)));
}

#[test]
fn sample_data_compressed_never_longer_than_declared() {
    let h = header(0b0000_1001, 0b0000_0001, 2);
    // the block holds three values, two are declared
    let block = [4u8, 0, 0x01, 0x02, 0x04, 0x00];
    match h.get_sample_data(&block) {
        Ok(d) => {
            assert_eq!(d.len(), 2);
            match d {
                SampleDataType::Mono8(v) => assert_eq!(v, vec![1i8, 2]),
                _ => panic!("mono 8-bit data was expected"),
            }
        }
        Err(_) => panic!("the block is whole"),
    }
    let long = header(0b0000_1001, 0b0000_0001, 4);
    assert!(matches!(long.get_sample_data(&block), Err(DecodeError::DecodeExhaustion)));
}

#[test]
fn vibrato_of_a_header() {
    let v = header(0, 0, 0).to_vibrato();
    assert_eq!(v.waveform, Waveform::TranslatedSquare);
    assert_eq!(v.speed, Amount::ratio(1, 4));
    assert_eq!(v.depth, Amount::ratio(1, 2));
    assert_eq!(v.sweep, Amount::ratio(1, 1));
}

#[test]
fn loops_and_levels_of_a_header() {
    let mut h = header(0b0101_0000, 0, 0);
    h.loop_beginning = 10;
    h.loop_end = 30;
    h.sustain_loop_beginning = 30;
    h.sustain_loop_end = 10;
    h.global_volume = 32;
    h.default_pan = 0x80 | 16;
    assert_eq!(h.loop_flag(), LoopType::PingPong);
    assert_eq!(h.sustain_loop_flag(), LoopType::No);
    assert_eq!(h.loop_length(), 20);
    assert_eq!(h.sustain_loop_length(), 0);
    assert_eq!(h.volume(), Amount::ratio(1, 2));
    assert_eq!(h.panning(), Amount::ratio(144, 64));
    let g = header(0b0011_0000, 0, 0);
    assert_eq!(g.loop_flag(), LoopType::Forward);
    assert_eq!(g.sustain_loop_flag(), LoopType::Forward);
    assert_eq!(g.panning(), Amount::ratio(1, 2));
    assert_eq!(header(0b1100_0000, 0, 0).loop_flag(), LoopType::No);
}
