use vstd::prelude::*;

verus! {

/// The bit of index `i` of `data`, counting from the lowest bit of the first
/// byte: 0 or 1.
pub open spec fn bit_at(data: Seq<u8>, i: int) -> u32 {
    ((data[i / 8] as u32) >> ((i % 8) as u32)) & 1
}

/// The number that the `n` bits from index `pos` on stand for, the first
/// bit being the lowest.
pub open spec fn bits_value(data: Seq<u8>, pos: int, n: int) -> u32
    decreases n,
{
    if n <= 0 {
        0
    } else {
        bits_value(data, pos, n - 1) | (bit_at(data, pos + n - 1) << ((n - 1) as u32))
    }
}

/// The number of `n` bits has no bit set from index `n` on.
pub proof fn lemma_bits_value_bound(data: Seq<u8>, pos: int, n: int)
    requires
        0 <= n < 32,
    ensures
        bits_value(data, pos, n) >> (n as u32) == 0,
    decreases n,
{
    if n > 0 {
        lemma_bits_value_bound(data, pos, n - 1);
        let v = bits_value(data, pos, n - 1);
        let b = bit_at(data, pos + n - 1);
        let byte = data[(pos + n - 1) / 8] as u32;
        let sh = ((pos + n - 1) % 8) as u32;
        assert(b <= 1) by (bit_vector)
            requires
                b == (byte >> sh) & 1,
        ;
        let m = (n - 1) as u32;
        let k = n as u32;
        assert((v | (b << m)) >> k == 0) by (bit_vector)
            requires
                v >> m == 0,
                b <= 1,
                k == m + 1,
                k < 32,
        ;
    } else {
        assert(0u32 >> 0u32 == 0) by (bit_vector);
    }
}

/// Reading reproduces the bits: bit `k` of the number of `n` bits from
/// `pos` on is the bit of index `pos + k` of the data.
pub proof fn lemma_bits_value_bit(data: Seq<u8>, pos: int, n: int, k: int)
    requires
        0 <= k < n <= 32,
    ensures
        (bits_value(data, pos, n) >> (k as u32)) & 1 == bit_at(data, pos + k),
    decreases n,
{
    let v = bits_value(data, pos, n - 1);
    let b = bit_at(data, pos + n - 1);
    let byte = data[(pos + n - 1) / 8] as u32;
    let sh = ((pos + n - 1) % 8) as u32;
    assert(b <= 1) by (bit_vector)
        requires
            b == (byte >> sh) & 1,
    ;
    let m = (n - 1) as u32;
    let kk = k as u32;
    lemma_bits_value_bound(data, pos, n - 1);
    if k == n - 1 {
        assert(((v | (b << m)) >> kk) & 1 == b) by (bit_vector)
            requires
                v >> m == 0,
                b <= 1,
                kk == m,
                m < 32,
        ;
    } else {
        lemma_bits_value_bit(data, pos, n - 1, k);
        assert(((v | (b << m)) >> kk) & 1 == (v >> kk) & 1) by (bit_vector)
            requires
                kk < m,
                m < 32,
        ;
    }
}

/// The start, in bits, of the read of index `i` in a run of reads of the
/// widths `widths` that begins at `pos`.
pub open spec fn read_start(pos: int, widths: Seq<u8>, i: int) -> int
    decreases i,
{
    if i <= 0 {
        pos
    } else {
        read_start(pos, widths, i - 1) + widths[i - 1] as int
    }
}

/// A run of reads hands the data back bit by bit: where the widths are
/// between 1 and 32 and the run ends within the data, bit `k` of the number
/// that the read of index `i` gives is the bit of the data at the place the
/// run has reached, `read_start(pos, widths, i) + k`.
pub proof fn lemma_reads_reproduce_bits(data: Seq<u8>, pos: int, widths: Seq<u8>, i: int, k: int)
    requires
        0 <= pos,
        forall|j: int| 0 <= j < widths.len() ==> 1 <= #[trigger] widths[j] <= 32,
        read_start(pos, widths, widths.len() as int) <= 8 * data.len(),
        0 <= i < widths.len(),
        0 <= k < widths[i],
    ensures
        (bits_value(data, read_start(pos, widths, i), widths[i] as int) >> (k as u32)) & 1
            == bit_at(data, read_start(pos, widths, i) + k),
        read_start(pos, widths, i) + widths[i] <= 8 * data.len(),
{
    lemma_bits_value_bit(data, read_start(pos, widths, i), widths[i] as int, k);
    lemma_read_start_monotonic(pos, widths, i + 1, widths.len() as int);
}

/// The starts of the reads of a run do not go back.
pub proof fn lemma_read_start_monotonic(pos: int, widths: Seq<u8>, i: int, j: int)
    requires
        0 <= i <= j <= widths.len(),
    ensures
        read_start(pos, widths, i) <= read_start(pos, widths, j),
    decreases j - i,
{
    if i < j {
        lemma_read_start_monotonic(pos, widths, i, j - 1);
    }
}

/// A reader that hands out the bits of a byte slice in order, the lowest bit
/// of each byte first.
pub struct BitReader<'a> {
    data: &'a [u8],
    data_index: usize,
    databit: u32,
    databit_index: u32,
}

impl<'a> BitReader<'a> {
    /// The bytes that the reader reads.
    pub closed spec fn data_view(&self) -> Seq<u8> {
        self.data@
    }

    /// The number of bits handed out so far.
    pub closed spec fn position(&self) -> int {
        self.data_index * 8 - self.databit_index
    }

    /// The reader holds the rest of the byte it has begun.
    pub closed spec fn wf(&self) -> bool {
        &&& self.data_index <= self.data@.len()
        &&& self.databit_index <= 8
        &&& self.databit_index > 0 ==> self.data_index >= 1 && self.databit == (
        self.data@[self.data_index - 1] as u32) >> ((8 - self.databit_index) as u32)
    }

    /// The position lies within the data.
    pub proof fn lemma_position_bounds(&self)
        requires
            self.wf(),
        ensures
            0 <= self.position() <= 8 * self.data_view().len(),
    {
    }

    /// A reader at the start of `data`.
    pub fn new(data: &'a [u8]) -> (r: Self)
        ensures
            r.wf(),
            r.data_view() == data@,
            r.position() == 0,
    {
        Self { databit: 0, databit_index: 0, data, data_index: 0 }
    }

    /// Whether all bits were handed out.
    pub fn is_empty(&self) -> (r: bool)
        requires
            self.wf(),
        ensures
            r == (self.position() == 8 * self.data_view().len()),
    {
        self.data_index >= self.data.len() && self.databit_index == 0
    }

    /// Reads `n` bits, 1 to 32, as a number whose lowest bit is the first
    /// bit read. Gives none for another `n`, and where fewer than `n` bits
    /// are left: the reader is then at the end of the data.
    pub fn read_bits(&mut self, n: u8) -> (r: Option<u32>)
        requires
            old(self).wf(),
        ensures
            final(self).wf(),
            final(self).data_view() == old(self).data_view(),
            r.is_some() == (1 <= n <= 32 && old(self).position() + n <= 8 * old(
                self,
            ).data_view().len()),
            r.is_some() ==> r.unwrap() == bits_value(
                old(self).data_view(),
                old(self).position(),
                n as int,
            ) && final(self).position() == old(self).position() + n,
            r.is_none() ==> final(self).position() == (if 1 <= n <= 32 {
                8 * (old(self).data_view().len() as int)
            } else {
                old(self).position()
            }),
    {
        if n == 0 || n > 32 || self.is_empty() {
            return None;
        }
        let mut retval: u32 = 0;
        let mut i: u8 = 0;
        let ghost start = self.position();
        let ghost data = self.data@;
        while i < n
            invariant
                self.wf(),
                self.data@ == data,
                data == old(self).data_view(),
                start == old(self).position(),
                0 <= start,
                1 <= n <= 32,
                0 <= i <= n,
                self.position() == start + i,
                i == 0 ==> retval == 0,
                i > 0 ==> retval == bits_value(data, start, i as int) << ((32 - i) as u32),
            decreases n - i,
        {
            if self.databit_index == 0 {
                if self.data_index >= self.data.len() {
                    return None;
                }
                self.databit = self.data[self.data_index] as u32;
                self.data_index += 1;
                self.databit_index = 8;
                proof {
                    let fresh = self.databit;
                    assert(fresh == fresh >> 0u32) by (bit_vector);
                }
            }
            proof {
                let pos = start + i;
                let byte = data[self.data_index - 1] as u32;
                let sh = (8 - self.databit_index) as u32;
                assert(pos / 8 == self.data_index - 1);
                assert(pos % 8 == 8 - self.databit_index);
                let d = self.databit;
                let b = d & 1;
                assert(b == bit_at(data, pos));
                assert(b <= 1) by (bit_vector)
                    requires
                        b == d & 1,
                ;
                let v = bits_value(data, start, i as int);
                let m = i as u32;
                if i > 0 {
                    lemma_bits_value_bound(data, start, i as int);
                    let up = (32 - m) as u32;
                    let up1 = (31 - m) as u32;
                    if i < 32 {
                        assert(((v << up) >> 1) | (b << 31) == (v | (b << m)) << up1)
                            by (bit_vector)
                            requires
                                1 <= m < 32,
                                up == 32 - m,
                                up1 == 31 - m,
                                v >> m == 0,
                                b <= 1,
                        ;
                    }
                } else {
                    assert((0u32 >> 1) | (b << 31) == (0u32 | (b << 0u32)) << 31u32)
                        by (bit_vector);
                    assert(v == 0);
                }
                let sh2 = (8 - (self.databit_index - 1)) as u32;
                assert(d >> 1 == byte >> sh2) by (bit_vector)
                    requires
                        d == byte >> sh,
                        sh2 == sh + 1,
                        sh < 8,
                ;
            }
            retval = (retval >> 1) | ((self.databit & 1) << 31);
            self.databit = self.databit >> 1;
            self.databit_index -= 1;
            i += 1;
        }
        proof {
            let v = bits_value(data, start, n as int);
            let m = n as u32;
            if n < 32 {
                lemma_bits_value_bound(data, start, n as int);
                let up = (32 - m) as u32;
                assert((v << up) >> up == v) by (bit_vector)
                    requires
                        1 <= m < 32,
                        up == 32 - m,
                        v >> m == 0,
                ;
            } else {
                assert((v << 0u32) >> 0u32 == v) by (bit_vector);
            }
        }
        Some(retval >> (32 - n))
    }
}

} // verus!
