use crate::error::DecodeError;
use crate::it_pattern::le16;
use vstd::prelude::*;

verus! {

/// One entry of the edit history of an IT file: when an editing session
/// began, in the date and time format of FAT, and how long it ran.
#[derive(Clone, Copy, Debug, PartialEq, Eq, Structural)]
pub struct ItEditHistoryEntry {
    /// Bits 9 to 15: the year since 1980. Bits 5 to 8: the month. Bits 0 to
    /// 4: the day.
    pub fat_date: u16,
    /// Bits 11 to 15: the hour. Bits 5 to 10: the minute. Bits 0 to 4: half
    /// the second.
    pub fat_time: u16,
    /// The run time in ticks of MS-DOS, 18.2 to the second.
    pub run_time: u32,
}

/// The number of bytes of an entry in a file.
pub const ENTRY_SIZE: usize = 8;

/// The entry that the eight bytes from `at` on hold.
pub open spec fn entry_at(data: Seq<u8>, at: int) -> ItEditHistoryEntry {
    ItEditHistoryEntry {
        fat_date: le16(data[at], data[at + 1]) as u16,
        fat_time: le16(data[at + 2], data[at + 3]) as u16,
        run_time: (le16(data[at + 4], data[at + 5]) + 65536 * le16(data[at + 6], data[at + 7]))
            as u32,
    }
}

/// The edit history at the start of `source`: a count of two bytes, then as
/// many entries. Gives the entries, none for a count of 0, and the number
/// of bytes taken; or an error where `source` is too short.
pub open spec fn spec_load_edit_history(source: Seq<u8>) -> Result<
    (Option<Seq<ItEditHistoryEntry>>, int),
    DecodeError,
> {
    if source.len() < 2 {
        Err(DecodeError::TruncatedInput)
    } else {
        let count = le16(source[0], source[1]);
        if count == 0 {
            Ok((None, 2))
        } else if source.len() - 2 < ENTRY_SIZE * count {
            Err(DecodeError::TruncatedInput)
        } else {
            Ok(
                (
                    Some(Seq::new(count as nat, |i: int| entry_at(source, 2 + ENTRY_SIZE * i))),
                    2 + ENTRY_SIZE * count,
                ),
            )
        }
    }
}

impl ItEditHistoryEntry {
    /// The year, the month and the day.
    pub fn date(&self) -> (r: (u16, u8, u8))
        ensures
            r.0 == self.fat_date / 512 + 1980,
            r.1 == (self.fat_date / 32) % 16,
            r.2 == self.fat_date % 32,
    {
        let d: u16 = self.fat_date;
        assert((d >> 9) == d / 512 && (d >> 9) < 128 && ((d >> 5) & 0x0F) == (d / 32) % 16 && (d
            & 0x1F) == d % 32) by (bit_vector);
        let year: u16 = (d >> 9) + 1980;
        let month: u8 = ((d >> 5) & 0x0F) as u8;
        let day: u8 = (d & 0x1F) as u8;
        (year, month, day)
    }

    /// The hour, the minute and the second.
    pub fn time(&self) -> (r: (u8, u8, u8))
        ensures
            r.0 == self.fat_time / 2048,
            r.1 == (self.fat_time / 32) % 64,
            r.2 == (self.fat_time % 32) * 2,
    {
        let t: u16 = self.fat_time;
        assert(((t >> 11) & 0x1F) == t / 2048 && ((t >> 5) & 0x3F) == (t / 32) % 64 && (t & 0x1F)
            == t % 32) by (bit_vector);
        let hour: u8 = ((t >> 11) & 0x1F) as u8;
        let minute: u8 = ((t >> 5) & 0x3F) as u8;
        let second: u8 = ((t & 0x1F) * 2) as u8;
        (hour, minute, second)
    }
}

/// Reader of the edit history of an IT file.
#[derive(Debug)]
pub struct ItEditHistory;

impl ItEditHistory {
    /// Reads the edit history at the start of `source`.
    pub fn load(source: &[u8]) -> (r: Result<(Option<Vec<ItEditHistoryEntry>>, usize), DecodeError>)
        ensures
            match spec_load_edit_history(source@) {
                Ok((entries, used)) => {
                    &&& r.is_ok()
                    &&& r.unwrap().1 == used
                    &&& match entries {
                        Some(list) => r.unwrap().0.is_some() && r.unwrap().0.unwrap()@ == list,
                        None => r.unwrap().0.is_none(),
                    }
                },
                Err(e) => r.is_err() && r.unwrap_err() == e,
            },
    {
        if source.len() < 2 {
            return Err(DecodeError::TruncatedInput);
        }
        let count: usize = source[0] as usize + 256 * (source[1] as usize);
        if count == 0 {
            return Ok((None, 2));
        }
        if (source.len() - 2) / ENTRY_SIZE < count {
            return Err(DecodeError::TruncatedInput);
        }
        let mut entries: Vec<ItEditHistoryEntry> = Vec::new();
        let mut i: usize = 0;
        while i < count
            invariant
                0 <= i <= count,
                count == le16(source@[0], source@[1]),
                2 + ENTRY_SIZE * count <= source@.len(),
                entries@.len() == i,
                forall|k: int|
                    0 <= k < i ==> (#[trigger] entries@[k]) == entry_at(source@, 2 + ENTRY_SIZE * k),
            decreases count - i,
        {
            let at: usize = 2 + ENTRY_SIZE * i;
            let fat_date: u16 = source[at] as u16 + 256 * (source[at + 1] as u16);
            let fat_time: u16 = source[at + 2] as u16 + 256 * (source[at + 3] as u16);
            let run_time: u32 = (source[at + 4] as u32 + 256 * (source[at + 5] as u32)) + 65536 * (
            source[at + 6] as u32 + 256 * (source[at + 7] as u32));
            entries.push(ItEditHistoryEntry { fat_date, fat_time, run_time });
            i += 1;
        }
        assert(entries@ =~= Seq::new(
            count as nat,
            |i: int| entry_at(source@, 2 + ENTRY_SIZE * i),
        ));
        Ok((Some(entries), 2 + ENTRY_SIZE * count))
    }
}

} // verus!
