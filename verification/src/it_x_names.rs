use crate::amiga_module::copy_bytes;
use crate::error::DecodeError;
use crate::it_header::is_tag;
use crate::it_module::le32_at;
use crate::it_plugins::read_le32;
use vstd::prelude::*;

verus! {

/// Reader of the chunks of pattern names and channel names that follow the
/// headers of some IT files.
#[derive(Debug)]
pub struct ItXNames;

/// The number of names of `chunk_size` bytes in `length` bytes; the last
/// name may be shorter.
pub open spec fn name_count(length: int, chunk_size: int) -> int {
    (length + chunk_size - 1) / chunk_size
}

/// The bytes of name `i` of a chunk of names whose `length` bytes start at
/// byte 4 of `source`.
pub open spec fn name_at(source: Seq<u8>, length: int, chunk_size: int, i: int) -> Seq<u8> {
    source.subrange(
        4 + i * chunk_size,
        if (i + 1) * chunk_size <= length {
            4 + (i + 1) * chunk_size
        } else {
            4 + length
        },
    )
}

/// The names of the chunk at the start of `source`, as bytes, and the
/// number of bytes that the chunk takes: a length of four bytes, then the
/// names, `chunk_size` bytes each.
pub open spec fn spec_load_names(source: Seq<u8>, chunk_size: int) -> Result<
    (Seq<Seq<u8>>, int),
    DecodeError,
> {
    if source.len() < 4 {
        Err(DecodeError::TruncatedInput)
    } else {
        let length = le32_at(source, 0) as int;
        if source.len() - 4 < length {
            Err(DecodeError::TruncatedInput)
        } else {
            Ok(
                (
                    Seq::new(
                        name_count(length, chunk_size) as nat,
                        |i: int| name_at(source, length, chunk_size, i),
                    ),
                    4 + length,
                ),
            )
        }
    }
}

impl ItXNames {
    /// Reads the names of the chunk at the start of `source`, which
    /// follows its tag. Gives the bytes of each name and the number of
    /// bytes that the chunk takes. The names must have a length.
    pub fn load(source: &[u8], chunk_size: usize) -> (r: Result<(Vec<Vec<u8>>, usize), DecodeError>)
        requires
            chunk_size >= 1,
        ensures
            match spec_load_names(source@, chunk_size as int) {
                Ok((names, used)) => r.is_ok() && r.unwrap().0.deep_view() == names && r.unwrap().1
                    == used,
                Err(e) => r.is_err() && r.unwrap_err() == e,
            },
    {
        if source.len() < 4 {
            return Err(DecodeError::TruncatedInput);
        }
        let length: usize = read_le32(source, 0) as usize;
        if source.len() - 4 < length {
            return Err(DecodeError::TruncatedInput);
        }
        let mut dest: Vec<Vec<u8>> = Vec::new();
        let mut at: usize = 0;
        let mut i: usize = 0;
        proof {
            let l = length as int;
            let c = chunk_size as int;
            assert(l == 0 ==> (l + c - 1) / c == 0) by (nonlinear_arith)
                requires
                    c >= 1,
            ;
            assert(l > 0 ==> (l + c - 1) / c > 0) by (nonlinear_arith)
                requires
                    c >= 1,
            ;
        }
        while at < length
            invariant
                0 <= i <= at <= length,
                chunk_size >= 1,
                4 + length <= source.len(),
                at < length ==> at == i * chunk_size,
                at >= length ==> i == name_count(length as int, chunk_size as int),
                at < length ==> i < name_count(length as int, chunk_size as int),
                dest@.len() == i,
                forall|k: int|
                    0 <= k < i ==> (#[trigger] dest@[k])@ == name_at(
                        source@,
                        length as int,
                        chunk_size as int,
                        k,
                    ),
            decreases length - at,
        {
            let end: usize = if length - at >= chunk_size {
                at + chunk_size
            } else {
                length
            };
            proof {
                let l = length as int;
                let c = chunk_size as int;
                let n = i as int;
                assert((n + 1) * c == n * c + c) by (nonlinear_arith);
                assert(n * c + c >= l ==> n + 1 == (l + c - 1) / c) by (nonlinear_arith)
                    requires
                        n * c < l,
                        c >= 1,
                        n >= 0,
                ;
                assert(n * c + c < l ==> n + 1 < (l + c - 1) / c) by (nonlinear_arith)
                    requires
                        c >= 1,
                        n >= 0,
                ;
            }
            dest.push(copy_bytes(source, 4 + at, 4 + end));
            at = end;
            i += 1;
        }
        proof {
            let want = spec_load_names(source@, chunk_size as int).unwrap().0;
            assert(dest@.len() == want.len());
            assert forall|k: int| 0 <= k < dest@.len() implies (#[trigger] dest.deep_view()[k])
                == want[k] by {
                assert(dest@[k].deep_view() =~= dest@[k]@);
            }
            assert(dest.deep_view() =~= want);
        }
        Ok((dest, 4 + length))
    }

    /// Whether `data` starts with "PNAM", the tag of the pattern names.
    pub fn is_pnam(data: &[u8]) -> (r: bool)
        requires
            data@.len() >= 4,
        ensures
            r == is_tag(data@, 0x50, 0x4E, 0x41, 0x4D),
    {
        data[0] == 0x50 && data[1] == 0x4E && data[2] == 0x41 && data[3] == 0x4D
    }

    /// Whether `data` starts with "CNAM", the tag of the channel names.
    pub fn is_cnam(data: &[u8]) -> (r: bool)
        requires
            data@.len() >= 4,
        ensures
            r == is_tag(data@, 0x43, 0x4E, 0x41, 0x4D),
    {
        data[0] == 0x43 && data[1] == 0x4E && data[2] == 0x41 && data[3] == 0x4D
    }
}

} // verus!
