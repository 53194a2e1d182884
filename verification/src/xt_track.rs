use crate::patternslot::{spec_save_xm_unpack, PatternSlot};
use vstd::prelude::*;

verus! {

#[verifier::external_type_specification]
#[verifier::external_body]
pub struct ExEncodeError(bincode::error::EncodeError);

/// The two bytes of a 16-bit number, the low byte first.
pub open spec fn le_bytes_16(v: u16) -> Seq<u8> {
    seq![(v % 256) as u8, (v / 256) as u8]
}

/// Encodes a 16-bit number with `bincode::serde::encode_to_vec` in the
/// legacy configuration of bincode. That configuration writes integers with
/// a fixed length and the low byte first, and writing into a vector does not
/// fail: the result is taken to be the two bytes of the number.
#[verifier::external_body]
fn encode_u16(v: u16) -> (r: Result<Vec<u8>, bincode::error::EncodeError>)
    ensures
        r.is_ok(),
        r.unwrap()@ == le_bytes_16(v),
{
    bincode::serde::encode_to_vec(&v, bincode::config::legacy())
}

/// The bytes of all slots of a track, five to a slot, in their order.
pub open spec fn track_bytes(track: Seq<PatternSlot>) -> Seq<u8>
    decreases track.len(),
{
    if track.len() == 0 {
        Seq::empty()
    } else {
        track_bytes(track.drop_last()) + spec_save_xm_unpack(track.last())
    }
}

/// The version of the track format that is written.
pub const XT_VERSION: u16 = 1;

/// Writer of tracks in the XT format.
pub struct XtTrack;

impl XtTrack {
    /// Writes a track: the version, the number of rows (its low 16 bits),
    /// and the slots, five bytes each. The slots are those of one channel
    /// from row to row, not those of a row.
    pub fn save(track: &Vec<PatternSlot>) -> (r: Vec<u8>)
        ensures
            r@ == le_bytes_16(XT_VERSION) + le_bytes_16((track@.len() % 65536) as u16)
                + track_bytes(track@),
    {
        let nrow: u16 = (track.len() % 65536) as u16;
        let mut data: Vec<u8> = encode_u16(XT_VERSION).unwrap();
        let mut rows: Vec<u8> = encode_u16(nrow).unwrap();
        data.append(&mut rows);
        let ghost head = data@;
        let mut i: usize = 0;
        proof {
            assert(track_bytes(track@.take(0)) =~= Seq::<u8>::empty());
            assert(head + Seq::<u8>::empty() =~= head);
        }
        while i < track.len()
            invariant
                0 <= i <= track.len(),
                data@ == head + track_bytes(track@.take(i as int)),
            decreases track.len() - i,
        {
            let mut d = track[i].save_xm_unpack();
            proof {
                assert(track@.take(i + 1).drop_last() =~= track@.take(i as int));
                assert(head + (track_bytes(track@.take(i as int)) + d@) =~= (head + track_bytes(
                    track@.take(i as int),
                )) + d@);
            }
            data.append(&mut d);
            i += 1;
        }
        proof {
            assert(track@.take(track.len() as int) =~= track@);
        }
        data
    }
}

} // verus!
