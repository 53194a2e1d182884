use crate::amiga_sample::AmigaSample;
use crate::error::DecodeError;
use crate::patternslot::{spec_deserialize, PatternSlot};
use vstd::prelude::*;

verus! {

/// The number of rows of a MOD pattern.
pub const MOD_ROWS: usize = 64;

/// The place of the tag in a MOD file.
pub const TAG_OFFSET: usize = 0x438;

/// The place of the first sample header in a MOD file.
pub const SAMPLES_OFFSET: usize = 0x14;

/// The tag "TDZ1".
pub const TAG_TDZ1: u32 = 0x54445A31;

/// The tag "2CHN".
pub const TAG_2CHN: u32 = 0x3243484E;

/// The tag "TDZ2".
pub const TAG_TDZ2: u32 = 0x54445A32;

/// The tag "TDZ3".
pub const TAG_TDZ3: u32 = 0x54445A33;

/// The tag "M.K.".
pub const TAG_MDOTKDOT: u32 = 0x4D2E4B2E;

/// The tag "M!K!".
pub const TAG_MBANGKBANG: u32 = 0x4D214B21;

/// The tag "FLT4".
pub const TAG_FLT4: u32 = 0x464C5434;

/// The tag "NSMS".
pub const TAG_NSMS: u32 = 0x4E534D53;

/// The tag "LARD".
pub const TAG_LARD: u32 = 0x4C415244;

/// The tag "PATT".
pub const TAG_PATT: u32 = 0x50415454;

/// The tag "EXO4".
pub const TAG_EXO4: u32 = 0x45584F34;

/// The tag "N.T.".
pub const TAG_NDOTTDOT: u32 = 0x4E2E542E;

/// The tag "M&K!".
pub const TAG_MANDKBANG: u32 = 0x4D264B21;

/// The tag "FEST".
pub const TAG_FEST: u32 = 0x46455354;

/// The tag "CD61".
pub const TAG_CD61: u32 = 0x43443631;

/// The tag "5CHN".
pub const TAG_5CHN: u32 = 0x3543484E;

/// The tag "6CHN".
pub const TAG_6CHN: u32 = 0x3643484E;

/// The tag "7CHN".
pub const TAG_7CHN: u32 = 0x3743484E;

/// The tag "8CHN".
pub const TAG_8CHN: u32 = 0x3843484E;

/// The tag "CD81".
pub const TAG_CD81: u32 = 0x43443831;

/// The tag "OKTA".
pub const TAG_OKTA: u32 = 0x4F4B5441;

/// The tag "OCTA".
pub const TAG_OCTA: u32 = 0x4F435441;

/// The tag "FLT8".
pub const TAG_FLT8: u32 = 0x464C5438;

/// The tag "EXO8".
pub const TAG_EXO8: u32 = 0x45584F38;

/// The tag "9CHN".
pub const TAG_9CHN: u32 = 0x3943484E;

/// An Amiga MOD file, taken apart.
#[derive(Debug)]
pub struct AmigaModule {
    /// The 22 bytes at the start of the file, which hold the title.
    pub title: Vec<u8>,
    /// 15 or 31 sample headers.
    pub samples: Vec<AmigaSample>,
    pub song_length: u8,
    pub restart_position: u8,
    /// The 128 entries of the order table.
    pub positions: Vec<u8>,
    /// The four bytes at 0x438.
    pub tag: Vec<u8>,
    /// Pattern, row, channel.
    pub patterns: Vec<Vec<Vec<PatternSlot>>>,
    /// The data of each sample.
    pub audio: Vec<Vec<i8>>,
}

/// Four bytes as one number, the first byte highest.
pub open spec fn be32(b0: u8, b1: u8, b2: u8, b3: u8) -> u32 {
    (b0 as int * 0x100_0000 + b1 as int * 0x1_0000 + b2 as int * 0x100 + b3 as int) as u32
}

/// Whether a byte is a decimal digit.
pub open spec fn is_digit(b: u8) -> bool {
    0x30 <= b <= 0x39
}

/// The number of channels that a tag of the form "xxCH" or "xxCN" names:
/// two digits, or a plus sign and a digit; 0 for anything else.
pub open spec fn prefix_number(b0: u8, b1: u8) -> int {
    if is_digit(b0) && is_digit(b1) {
        (b0 - 0x30) * 10 + (b1 - 0x30)
    } else if b0 == 0x2B && is_digit(b1) {
        (b1 - 0x30) as int
    } else {
        0
    }
}

/// The number of channels that the four bytes of a tag stand for, if they
/// are a known tag.
pub open spec fn spec_number_of_tracks(tag: Seq<u8>) -> Option<u8> {
    let code = be32(tag[0], tag[1], tag[2], tag[3]);
    if code == TAG_TDZ1 {
        Some(1u8)
    } else if code == TAG_2CHN || code == TAG_TDZ2 {
        Some(2u8)
    } else if code == TAG_TDZ3 {
        Some(3u8)
    } else if code == TAG_MDOTKDOT || code == TAG_MBANGKBANG || code == TAG_FLT4
        || code == TAG_NSMS || code == TAG_LARD || code == TAG_PATT || code == TAG_EXO4
        || code == TAG_NDOTTDOT || code == TAG_MANDKBANG || code == TAG_FEST
        || code == TAG_CD61 {
        Some(4u8)
    } else if code == TAG_5CHN {
        Some(5u8)
    } else if code == TAG_6CHN {
        Some(6u8)
    } else if code == TAG_7CHN {
        Some(7u8)
    } else if code == TAG_8CHN || code == TAG_CD81 || code == TAG_OKTA || code == TAG_OCTA
        || code == TAG_FLT8 || code == TAG_EXO8 {
        Some(8u8)
    } else if code == TAG_9CHN {
        Some(9u8)
    } else if tag[2] == 0x43 && (tag[3] == 0x48 || tag[3] == 0x4E) {
        // "..CH" and "..CN"
        if prefix_number(tag[0], tag[1]) == 0 {
            None
        } else {
            Some(prefix_number(tag[0], tag[1]) as u8)
        }
    } else {
        None
    }
}

/// The number of sample headers of a file with the tag `tag`: 31 where the
/// tag is known, else 15.
pub open spec fn spec_number_of_samples(tag: Seq<u8>) -> int {
    if spec_number_of_tracks(tag).is_some() {
        31
    } else {
        15
    }
}

/// The number of channels of the patterns: 4 where the tag is not known.
pub open spec fn tracks_or_four(tag: Seq<u8>) -> int {
    match spec_number_of_tracks(tag) {
        Some(n) => n as int,
        None => 4,
    }
}

/// The greatest of the first `n` positions, 0 for none.
pub open spec fn max_position(positions: Seq<u8>, n: int) -> int
    decreases n,
{
    if n <= 0 {
        0
    } else if positions[n - 1] > max_position(positions, n - 1) {
        positions[n - 1] as int
    } else {
        max_position(positions, n - 1)
    }
}

/// The place of the order table's length byte.
pub open spec fn order_offset(tag: Seq<u8>) -> int {
    SAMPLES_OFFSET + 30 * spec_number_of_samples(tag)
}

/// The place of the first pattern: after the order table, and after the tag
/// where the file has 31 samples.
pub open spec fn patterns_offset(tag: Seq<u8>) -> int {
    order_offset(tag) + 130 + (if spec_number_of_samples(tag) == 15 {
        0int
    } else {
        4int
    })
}

/// The slot of the cell whose four bytes start at `at`.
pub open spec fn cell_at(ser: Seq<u8>, at: int) -> PatternSlot {
    spec_deserialize(be32(ser[at], ser[at + 1], ser[at + 2], ser[at + 3]))
}

/// The row of `tracks` cells that starts at `at`.
pub open spec fn row_at(ser: Seq<u8>, at: int, tracks: int) -> Seq<PatternSlot> {
    Seq::new(tracks as nat, |t: int| cell_at(ser, at + 4 * t))
}

/// The pattern of 64 rows of `tracks` cells that starts at `at`.
pub open spec fn pattern_at(ser: Seq<u8>, at: int, tracks: int) -> Seq<Seq<PatternSlot>> {
    Seq::new(MOD_ROWS as nat, |r: int| row_at(ser, at + r * (4 * tracks), tracks))
}

/// The number of bytes of a pattern of `tracks` channels.
pub open spec fn pattern_size(tracks: int) -> int {
    MOD_ROWS * (4 * tracks)
}

/// The number of bytes that sample `i` has in the file: twice its length
/// field, or what is left of the file where that is less.
pub open spec fn audio_len(ser_len: int, at: int, length_div2: u16) -> int {
    if 2 * length_div2 <= ser_len - at {
        2 * length_div2
    } else {
        ser_len - at
    }
}

/// The place of the data of sample `i`, when the data of the first sample
/// starts at `first`.
pub open spec fn audio_offset(ser_len: int, first: int, lengths: Seq<u16>, i: int) -> int
    decreases i,
{
    if i <= 0 {
        first
    } else {
        let before = audio_offset(ser_len, first, lengths, i - 1);
        before + audio_len(ser_len, before, lengths[i - 1])
    }
}

/// A byte read as a signed number.
pub open spec fn signed_byte(b: u8) -> i8 {
    if b >= 128 {
        (b - 256) as i8
    } else {
        b as i8
    }
}

impl AmigaModule {
    /// The length fields of the samples.
    pub open spec fn sample_lengths(&self) -> Seq<u16> {
        self.samples@.map_values(|s: AmigaSample| s.length_div2)
    }

    /// Whether the module holds what the file `ser` holds: title, tag,
    /// sample headers, order table, patterns and sample data, each at its
    /// place.
    pub open spec fn holds(&self, ser: Seq<u8>) -> bool {
        let tag = ser.subrange(TAG_OFFSET as int, TAG_OFFSET + 4);
        let n = spec_number_of_samples(tag);
        let tracks = tracks_or_four(tag);
        let at = order_offset(tag);
        let first_pattern = patterns_offset(tag);
        let first_audio = first_pattern + self.patterns@.len() * pattern_size(tracks);
        &&& self.title@ == ser.subrange(0, 22)
        &&& self.tag@ == tag
        &&& self.samples@.len() == n
        &&& forall|i: int|
            0 <= i < n ==> (#[trigger] self.samples@[i])@ == crate::amiga_sample::sample_at(
                ser,
                SAMPLES_OFFSET + 30 * i,
            )
        &&& self.song_length == ser[at]
        &&& self.restart_position == ser[at + 1]
        &&& self.positions@ == ser.subrange(at + 2, at + 130)
        &&& self.patterns@.len() == 1 + max_position(self.positions@, 128)
        &&& forall|p: int|
            0 <= p < self.patterns@.len() ==> (#[trigger] self.patterns@[p]).deep_view()
                == pattern_at(ser, first_pattern + p * pattern_size(tracks), tracks)
        &&& self.audio@.len() == n
        &&& forall|i: int|
            0 <= i < n ==> (#[trigger] self.audio@[i])@ == ser.subrange(
                audio_offset(ser.len() as int, first_audio, self.sample_lengths(), i),
                audio_offset(ser.len() as int, first_audio, self.sample_lengths(), i + 1),
            ).map_values(|b: u8| signed_byte(b))
    }

    /// The number of bytes that a file with the tag at its place needs up
    /// to the end of its patterns.
    pub open spec fn needed(ser: Seq<u8>) -> int {
        let tag = ser.subrange(TAG_OFFSET as int, TAG_OFFSET + 4);
        let at = order_offset(tag);
        patterns_offset(tag) + (1 + max_position(ser.subrange(at + 2, at + 130), 128))
            * pattern_size(tracks_or_four(tag))
    }

    /// The number of channels that the tag stands for, if it is known.
    pub fn get_number_of_tracks(&self) -> (r: Option<u8>)
        requires
            self.tag@.len() == 4,
        ensures
            r == spec_number_of_tracks(self.tag@),
    {
        tracks_of_tag(self.tag[0], self.tag[1], self.tag[2], self.tag[3])
    }

    /// The number of sample headers: 31 where the tag is known, else 15.
    pub fn get_number_of_samples(&self) -> (r: usize)
        requires
            self.tag@.len() == 4,
        ensures
            r == spec_number_of_samples(self.tag@),
    {
        match self.get_number_of_tracks() {
            None => 15,
            _ => 31,
        }
    }

    /// The number of patterns: one more than the greatest position.
    pub fn get_number_of_patterns(&self) -> (r: usize)
        requires
            self.positions@.len() == 128,
        ensures
            r == 1 + max_position(self.positions@, 128),
    {
        1 + greatest(&self.positions) as usize
    }

    /// Takes a MOD file apart. The file must reach up to the end of its
    /// patterns; sample data that is missing at its end is left out.
    pub fn load(ser_amiga_module: &[u8]) -> (r: Result<AmigaModule, DecodeError>)
        ensures
            ser_amiga_module@.len() < TAG_OFFSET + 4 ==> r.is_err() && r.unwrap_err()
                == DecodeError::TruncatedInput,
            ser_amiga_module@.len() >= TAG_OFFSET + 4 && ser_amiga_module@.len() < Self::needed(
                ser_amiga_module@,
            ) ==> r.is_err() && r.unwrap_err() == DecodeError::TruncatedInput,
            ser_amiga_module@.len() >= TAG_OFFSET + 4 && ser_amiga_module@.len() >= Self::needed(
                ser_amiga_module@,
            ) ==> r.is_ok() && r.unwrap().holds(ser_amiga_module@),
    {
        let ser = ser_amiga_module;
        if ser.len() < TAG_OFFSET + 4 {
            return Err(DecodeError::TruncatedInput);
        }
        let title = copy_bytes(ser, 0, 22);
        let tag = copy_bytes(ser, TAG_OFFSET, TAG_OFFSET + 4);
        let known = tracks_of_tag(tag[0], tag[1], tag[2], tag[3]);
        let number_of_samples: usize = match known {
            None => 15,
            _ => 31,
        };
        let number_of_tracks: usize = match known {
            Some(n) => n as usize,
            None => 4,
        };
        let mut samples: Vec<AmigaSample> = Vec::new();
        let mut i: usize = 0;
        while i < number_of_samples
            invariant
                0 <= i <= number_of_samples <= 31,
                ser@.len() >= TAG_OFFSET + 4,
                samples@.len() == i,
                forall|k: int|
                    0 <= k < i ==> (#[trigger] samples@[k])@ == crate::amiga_sample::sample_at(
                        ser@,
                        SAMPLES_OFFSET + 30 * k,
                    ),
            decreases number_of_samples - i,
        {
            samples.push(AmigaSample::read_at(ser, SAMPLES_OFFSET + 30 * i));
            i += 1;
        }
        let at: usize = SAMPLES_OFFSET + 30 * number_of_samples;
        let song_length: u8 = ser[at];
        let restart_position: u8 = ser[at + 1];
        let positions = copy_bytes(ser, at + 2, at + 130);
        let first_pattern: usize = if number_of_samples == 15 {
            at + 130
        } else {
            at + 134
        };
        let number_of_patterns: usize = 1 + greatest(&positions) as usize;
        let size: usize = MOD_ROWS * (4 * number_of_tracks);
        assert(number_of_patterns * size <= 256 * size) by (nonlinear_arith)
            requires
                number_of_patterns <= 256,
                size >= 0,
        ;
        if ser.len() - first_pattern < number_of_patterns * size {
            return Err(DecodeError::TruncatedInput);
        }
        let mut patterns: Vec<Vec<Vec<PatternSlot>>> = Vec::new();
        let mut p: usize = 0;
        while p < number_of_patterns
            invariant
                0 <= p <= number_of_patterns <= 256,
                1 <= number_of_tracks <= 255,
                ser@.len() == ser.len(),
                size == pattern_size(number_of_tracks as int),
                first_pattern <= 1084,
                first_pattern + number_of_patterns * size <= ser@.len(),
                patterns@.len() == p,
                forall|k: int|
                    0 <= k < p ==> (#[trigger] patterns@[k]).deep_view() == pattern_at(
                        ser@,
                        first_pattern + k * size,
                        number_of_tracks as int,
                    ),
            decreases number_of_patterns - p,
        {
            proof {
                let pi = p as int;
                let n = number_of_patterns as int;
                let s = size as int;
                assert(pi * s + s <= n * s && 0 <= pi * s) by (nonlinear_arith)
                    requires
                        0 <= pi < n,
                        s >= 0,
                ;
            }
            patterns.push(read_pattern(ser, first_pattern + p * size, number_of_tracks));
            p += 1;
        }
        let first_audio: usize = first_pattern + number_of_patterns * size;
        let ghost lengths = samples@.map_values(|s: AmigaSample| s.length_div2);
        let mut audio: Vec<Vec<i8>> = Vec::new();
        let mut data_at: usize = first_audio;
        let mut j: usize = 0;
        while j < samples.len()
            invariant
                0 <= j <= samples@.len(),
                first_audio <= data_at <= ser@.len(),
                lengths == samples@.map_values(|s: AmigaSample| s.length_div2),
                data_at == audio_offset(ser@.len() as int, first_audio as int, lengths, j as int),
                audio@.len() == j,
                forall|k: int|
                    0 <= k < j ==> (#[trigger] audio@[k])@ == ser@.subrange(
                        audio_offset(ser@.len() as int, first_audio as int, lengths, k),
                        audio_offset(ser@.len() as int, first_audio as int, lengths, k + 1),
                    ).map_values(|b: u8| signed_byte(b)),
            decreases samples@.len() - j,
        {
            let wanted: usize = 2 * (samples[j].length_div2 as usize);
            let l: usize = if wanted <= ser.len() - data_at {
                wanted
            } else {
                ser.len() - data_at
            };
            proof {
                assert(lengths[j as int] == samples@[j as int].length_div2);
                assert(l == audio_len(ser@.len() as int, data_at as int, lengths[j as int]));
            }
            audio.push(copy_signed(ser, data_at, data_at + l));
            data_at += l;
            j += 1;
        }
        let module = AmigaModule {
            title,
            samples,
            song_length,
            restart_position,
            positions,
            tag,
            patterns,
            audio,
        };
        proof {
            assert(module.tag@ == ser@.subrange(TAG_OFFSET as int, TAG_OFFSET + 4));
            assert(first_pattern == patterns_offset(module.tag@));
            assert(at == order_offset(module.tag@));
        }
        Ok(module)
    }

    /// A copy of a pattern, row by row.
    pub fn amiga_to_module_pattern(p: &Vec<Vec<PatternSlot>>) -> (r: Vec<Vec<PatternSlot>>)
        ensures
            r.deep_view() == p.deep_view(),
    {
        let mut dp: Vec<Vec<PatternSlot>> = Vec::new();
        let mut i: usize = 0;
        while i < p.len()
            invariant
                0 <= i <= p.len(),
                dp@.len() == i,
                forall|k: int| 0 <= k < i ==> (#[trigger] dp@[k])@ == p@[k]@,
            decreases p.len() - i,
        {
            let row = &p[i];
            let mut new_row: Vec<PatternSlot> = Vec::new();
            let mut c: usize = 0;
            while c < row.len()
                invariant
                    0 <= c <= row.len(),
                    new_row@ == row@.take(c as int),
                decreases row.len() - c,
            {
                new_row.push(row[c]);
                assert(row@.take(c + 1) =~= row@.take(c as int).push(row@[c as int]));
                c += 1;
            }
            assert(row@.take(row.len() as int) =~= row@);
            dp.push(new_row);
            i += 1;
        }
        proof {
            assert forall|k: int| 0 <= k < dp@.len() implies (#[trigger] dp.deep_view()[k])
                == p.deep_view()[k] by {
                assert(dp@[k].deep_view() =~= dp@[k]@);
                assert(p@[k].deep_view() =~= p@[k]@);
            }
            assert(dp.deep_view() =~= p.deep_view());
        }
        dp
    }

    /// The order of the song: the first `song_length` positions, as one
    /// song. A length beyond the table takes the whole table.
    pub fn pattern_order(&self) -> (r: Vec<Vec<usize>>)
        ensures
            r@.len() == 1,
            r@[0]@.len() == (if self.song_length as int <= self.positions@.len() {
                self.song_length as int
            } else {
                self.positions@.len() as int
            }),
            forall|k: int| 0 <= k < r@[0]@.len() ==> (#[trigger] r@[0]@[k]) == self.positions@[k],
    {
        let n: usize = if (self.song_length as usize) <= self.positions.len() {
            self.song_length as usize
        } else {
            self.positions.len()
        };
        let mut song: Vec<usize> = Vec::new();
        let mut i: usize = 0;
        while i < n
            invariant
                0 <= i <= n <= self.positions@.len(),
                song@.len() == i,
                forall|k: int| 0 <= k < i ==> (#[trigger] song@[k]) == self.positions@[k],
            decreases n - i,
        {
            song.push(self.positions[i] as usize);
            i += 1;
        }
        let mut order: Vec<Vec<usize>> = Vec::new();
        order.push(song);
        order
    }
}

/// The number of channels that the four bytes of a tag stand for.
pub fn tracks_of_tag(b0: u8, b1: u8, b2: u8, b3: u8) -> (r: Option<u8>)
    ensures
        r == spec_number_of_tracks(seq![b0, b1, b2, b3]),
{
    let code: u32 = (b0 as u32) * 0x100_0000 + (b1 as u32) * 0x1_0000 + (b2 as u32) * 0x100 + (
    b3 as u32);
    if code == TAG_TDZ1 {
        Some(1u8)
    } else if code == TAG_2CHN || code == TAG_TDZ2 {
        Some(2u8)
    } else if code == TAG_TDZ3 {
        Some(3u8)
    } else if code == TAG_MDOTKDOT || code == TAG_MBANGKBANG || code == TAG_FLT4
        || code == TAG_NSMS || code == TAG_LARD || code == TAG_PATT || code == TAG_EXO4
        || code == TAG_NDOTTDOT || code == TAG_MANDKBANG || code == TAG_FEST
        || code == TAG_CD61 {
        Some(4u8)
    } else if code == TAG_5CHN {
        Some(5u8)
    } else if code == TAG_6CHN {
        Some(6u8)
    } else if code == TAG_7CHN {
        Some(7u8)
    } else if code == TAG_8CHN || code == TAG_CD81 || code == TAG_OKTA || code == TAG_OCTA
        || code == TAG_FLT8 || code == TAG_EXO8 {
        Some(8u8)
    } else if code == TAG_9CHN {
        Some(9u8)
    } else if b2 == 0x43 && (b3 == 0x48 || b3 == 0x4E) {
        let n: u8 = if b0 >= 0x30 && b0 <= 0x39 && b1 >= 0x30 && b1 <= 0x39 {
            (b0 - 0x30) * 10 + (b1 - 0x30)
        } else if b0 == 0x2B && b1 >= 0x30 && b1 <= 0x39 {
            b1 - 0x30
        } else {
            0
        };
        if n == 0 {
            None
        } else {
            Some(n)
        }
    } else {
        None
    }
}

/// The greatest of the bytes, 0 for none.
pub fn greatest(bytes: &Vec<u8>) -> (r: u8)
    ensures
        r == max_position(bytes@, bytes@.len() as int),
{
    let mut m: u8 = 0;
    let mut i: usize = 0;
    while i < bytes.len()
        invariant
            0 <= i <= bytes.len(),
            m == max_position(bytes@, i as int),
        decreases bytes.len() - i,
    {
        if bytes[i] > m {
            m = bytes[i];
        }
        i += 1;
    }
    m
}

/// The bytes of `ser` from `from` up to `to`.
pub fn copy_bytes(ser: &[u8], from: usize, to: usize) -> (r: Vec<u8>)
    requires
        from <= to <= ser@.len(),
    ensures
        r@ == ser@.subrange(from as int, to as int),
{
    let mut out: Vec<u8> = Vec::new();
    let mut i: usize = from;
    while i < to
        invariant
            from <= i <= to <= ser@.len(),
            out@ == ser@.subrange(from as int, i as int),
        decreases to - i,
    {
        out.push(ser[i]);
        assert(ser@.subrange(from as int, i + 1) =~= ser@.subrange(from as int, i as int).push(
            ser@[i as int],
        ));
        i += 1;
    }
    out
}

/// The bytes of `ser` from `from` up to `to`, read as signed numbers.
pub fn copy_signed(ser: &[u8], from: usize, to: usize) -> (r: Vec<i8>)
    requires
        from <= to <= ser@.len(),
    ensures
        r@ == ser@.subrange(from as int, to as int).map_values(|b: u8| signed_byte(b)),
{
    let mut out: Vec<i8> = Vec::new();
    let mut i: usize = from;
    while i < to
        invariant
            from <= i <= to <= ser@.len(),
            out@.len() == i - from,
            forall|k: int| 0 <= k < i - from ==> (#[trigger] out@[k]) == signed_byte(ser@[from + k]),
        decreases to - i,
    {
        let b: u8 = ser[i];
        let v: i8 = if b >= 128 {
            (b as i32 - 256) as i8
        } else {
            b as i8
        };
        out.push(v);
        i += 1;
    }
    assert(out@ =~= ser@.subrange(from as int, to as int).map_values(|b: u8| signed_byte(b)));
    out
}

/// Reads the pattern of 64 rows of `tracks` cells that starts at `at`.
pub fn read_pattern(ser: &[u8], at: usize, tracks: usize) -> (r: Vec<Vec<PatternSlot>>)
    requires
        1 <= tracks <= 255,
        at + pattern_size(tracks as int) <= ser.len(),
    ensures
        r.deep_view() == pattern_at(ser@, at as int, tracks as int),
{
    let mut pattern: Vec<Vec<PatternSlot>> = Vec::new();
    let mut row_index: usize = 0;
    while row_index < MOD_ROWS
        invariant
            0 <= row_index <= MOD_ROWS,
            1 <= tracks <= 255,
            at + pattern_size(tracks as int) <= ser@.len(),
            ser@.len() == ser.len(),
            pattern@.len() == row_index,
            forall|k: int|
                0 <= k < row_index ==> (#[trigger] pattern@[k])@ == row_at(
                    ser@,
                    at + k * (4 * tracks),
                    tracks as int,
                ),
        decreases MOD_ROWS - row_index,
    {
        proof {
            let ri = row_index as int;
            let w = 4 * tracks as int;
            assert(ri * w + w <= 64 * w && 0 <= ri * w) by (nonlinear_arith)
                requires
                    0 <= ri < 64,
                    w >= 0,
            ;
        }
        let row_at_byte: usize = at + row_index * (4 * tracks);
        let mut row: Vec<PatternSlot> = Vec::new();
        let mut t: usize = 0;
        while t < tracks
            invariant
                0 <= t <= tracks <= 255,
                row_at_byte + 4 * tracks <= ser@.len(),
                ser@.len() == ser.len(),
                row@.len() == t,
                forall|k: int|
                    0 <= k < t ==> (#[trigger] row@[k]) == cell_at(ser@, row_at_byte + 4 * k),
            decreases tracks - t,
        {
            let o: usize = row_at_byte + 4 * t;
            let e: u32 = (ser[o] as u32) * 0x100_0000 + (ser[o + 1] as u32) * 0x1_0000 + (ser[o
                + 2] as u32) * 0x100 + (ser[o + 3] as u32);
            row.push(PatternSlot::deserialize(e));
            t += 1;
        }
        assert(row@ =~= row_at(ser@, at + row_index * (4 * tracks), tracks as int));
        pattern.push(row);
        row_index += 1;
    }
    proof {
        assert forall|k: int| 0 <= k < pattern@.len() implies (#[trigger] pattern.deep_view()[k])
            == pattern_at(ser@, at as int, tracks as int)[k] by {
            assert(pattern@[k].deep_view() =~= pattern@[k]@);
        }
        assert(pattern.deep_view() =~= pattern_at(ser@, at as int, tracks as int));
    }
    pattern
}

} // verus!
