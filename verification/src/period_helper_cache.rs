use vstd::prelude::*;

verus! {

/// What a frequency was computed from: the bit patterns of the period, of
/// the arpeggio pitch and of the finetune, and whether slides go by
/// halftones.
#[derive(Clone, Copy, Debug, PartialEq, Eq, Structural)]
pub struct CacheKey {
    pub period: u32,
    pub arp_note: u32,
    pub finetune: u32,
    pub semitone: bool,
}

/// An entry of the cache: a key, the bit pattern of the frequency computed
/// from it, and the time of its last use.
#[derive(Clone, Copy, Debug, PartialEq, Eq, Structural)]
pub struct CacheEntry {
    pub key: CacheKey,
    pub value: u32,
    pub last_used: usize,
}

/// A cache of frequencies with a fixed number of entries, of which the one
/// that was used least recently is given up for a new one.
#[derive(Clone, Debug)]
pub struct PeriodHelperCache {
    entries: Vec<CacheEntry>,
    access_counter: usize,
}

/// The index of the first entry with the key `key` at or after `from`, or
/// the number of entries where there is none.
pub open spec fn find_key(entries: Seq<CacheEntry>, key: CacheKey, from: int) -> int
    decreases entries.len() - from,
{
    if from < 0 || from >= entries.len() {
        entries.len() as int
    } else if entries[from].key == key {
        from
    } else {
        find_key(entries, key, from + 1)
    }
}

/// The index of the entry among the first `n` that was used least
/// recently; of several, the first.
pub open spec fn least_recent(entries: Seq<CacheEntry>, n: int) -> int
    decreases n,
{
    if n <= 1 {
        0
    } else {
        let before = least_recent(entries, n - 1);
        if entries[n - 1].last_used < entries[before].last_used {
            n - 1
        } else {
            before
        }
    }
}

/// The entries with every time of last use set back to 0.
pub open spec fn rewound(entries: Seq<CacheEntry>) -> Seq<CacheEntry> {
    entries.map_values(|e: CacheEntry| CacheEntry { last_used: 0, ..e })
}

/// The entries and the counter as a lookup or an insertion finds them: set
/// back where the counter is about to run out.
pub open spec fn settled(entries: Seq<CacheEntry>, counter: usize) -> (Seq<CacheEntry>, usize) {
    if counter >= usize::MAX - 1 {
        (rewound(entries), 0usize)
    } else {
        (entries, counter)
    }
}

/// The index found for a key is the first with that key.
pub proof fn lemma_find_key(entries: Seq<CacheEntry>, key: CacheKey, from: int)
    requires
        0 <= from <= entries.len(),
    ensures
        from <= find_key(entries, key, from) <= entries.len(),
        find_key(entries, key, from) < entries.len() ==> entries[find_key(entries, key, from)].key
            == key,
        forall|k: int| from <= k < find_key(entries, key, from) ==> (#[trigger] entries[k]).key != key,
    decreases entries.len() - from,
{
    if from < entries.len() && entries[from].key != key {
        lemma_find_key(entries, key, from + 1);
    }
}

/// The least recent entry is one of the entries, and none was used before it.
pub proof fn lemma_least_recent(entries: Seq<CacheEntry>, n: int)
    requires
        1 <= n <= entries.len(),
    ensures
        0 <= least_recent(entries, n) < n,
        forall|k: int|
            0 <= k < n ==> entries[least_recent(entries, n)].last_used <= (
            #[trigger] entries[k]).last_used,
    decreases n,
{
    if n > 1 {
        lemma_least_recent(entries, n - 1);
    }
}

impl PeriodHelperCache {
    /// The entries of the cache.
    pub closed spec fn entries(&self) -> Seq<CacheEntry> {
        self.entries@
    }

    /// The number of uses counted so far.
    pub closed spec fn counter(&self) -> usize {
        self.access_counter
    }

    /// The cache has an entry.
    pub open spec fn wf(&self) -> bool {
        self.entries().len() >= 1
    }

    /// The entry that a new cache is filled with.
    pub open spec fn blank_entry() -> CacheEntry {
        CacheEntry {
            key: CacheKey { period: 0, arp_note: 0, finetune: 0, semitone: false },
            value: 0,
            last_used: 0,
        }
    }

    /// A cache of `n` entries, all for the key of zeros with the value 0.
    pub fn new(n: usize) -> (r: PeriodHelperCache)
        requires
            n >= 1,
        ensures
            r.wf(),
            r.entries() == Seq::new(n as nat, |i: int| Self::blank_entry()),
            r.counter() == 0,
    {
        let default_entry = CacheEntry {
            key: CacheKey { period: 0, arp_note: 0, finetune: 0, semitone: false },
            value: 0,
            last_used: 0,
        };
        let mut entries: Vec<CacheEntry> = Vec::new();
        let mut i: usize = 0;
        while i < n
            invariant
                0 <= i <= n,
                default_entry == Self::blank_entry(),
                entries@.len() == i,
                forall|k: int| 0 <= k < i ==> entries@[k] == Self::blank_entry(),
            decreases n - i,
        {
            entries.push(default_entry);
            i += 1;
        }
        assert(entries@ =~= Seq::new(n as nat, |i: int| Self::blank_entry()));
        PeriodHelperCache { entries, access_counter: 0 }
    }

    fn reset_counters(&mut self)
        ensures
            final(self).entries() == rewound(old(self).entries()),
            final(self).counter() == 0,
    {
        self.access_counter = 0;
        let mut i: usize = 0;
        while i < self.entries.len()
            invariant
                0 <= i <= self.entries@.len(),
                self.entries@.len() == old(self).entries@.len(),
                self.access_counter == 0,
                forall|k: int|
                    0 <= k < i ==> (#[trigger] self.entries@[k]) == (CacheEntry {
                        last_used: 0,
                        ..old(self).entries@[k]
                    }),
                forall|k: int|
                    i <= k < self.entries@.len() ==> (#[trigger] self.entries@[k]) == old(
                        self,
                    ).entries@[k],
            decreases self.entries@.len() - i,
        {
            let e = self.entries[i];
            self.entries.set(i, CacheEntry { last_used: 0, ..e });
            i += 1;
        }
        assert(self.entries@ =~= rewound(old(self).entries@));
    }

    /// Looks a key up. Gives the value of the first entry with the key, and
    /// marks that entry as used now; or none where no entry has the key.
    pub fn get(&mut self, key: CacheKey) -> (r: Option<u32>)
        requires
            old(self).wf(),
        ensures
            final(self).wf(),
            ({
                let (before, counter) = settled(old(self).entries(), old(self).counter());
                let at = find_key(before, key, 0);
                if at < before.len() {
                    &&& r == Some(before[at].value)
                    &&& final(self).counter() == counter + 1
                    &&& final(self).entries() == before.update(
                        at,
                        CacheEntry { last_used: (counter + 1) as usize, ..before[at] },
                    )
                } else {
                    &&& r.is_none()
                    &&& final(self).counter() == counter
                    &&& final(self).entries() == before
                }
            }),
    {
        if self.access_counter >= usize::MAX - 1 {
            self.reset_counters();
        }
        let ghost before = self.entries@;
        let mut i: usize = 0;
        while i < self.entries.len()
            invariant
                0 <= i <= self.entries@.len(),
                self.entries@ == before,
                before == settled(old(self).entries(), old(self).counter()).0,
                self.access_counter < usize::MAX - 1,
                self.access_counter == settled(old(self).entries(), old(self).counter()).1,
                find_key(before, key, 0) == find_key(before, key, i as int),
            decreases self.entries@.len() - i,
        {
            let e = self.entries[i];
            if e.key.period == key.period && e.key.arp_note == key.arp_note && e.key.finetune
                == key.finetune && e.key.semitone == key.semitone {
                proof {
                    assert(e.key == key);
                    assert(find_key(before, key, i as int) == i);
                }
                self.access_counter += 1;
                self.entries.set(i, CacheEntry { last_used: self.access_counter, ..e });
                return Some(e.value);
            }
            i += 1;
        }
        None
    }

    /// Puts a value in for a key, in the place of the entry that was used
    /// least recently, and marks it as used now.
    pub fn insert(&mut self, key: CacheKey, frequency: u32)
        requires
            old(self).wf(),
        ensures
            final(self).wf(),
            ({
                let (before, counter) = settled(old(self).entries(), old(self).counter());
                let at = least_recent(before, before.len() as int);
                &&& final(self).counter() == counter + 1
                &&& final(self).entries() == before.update(
                    at,
                    CacheEntry { key, value: frequency, last_used: (counter + 1) as usize },
                )
            }),
    {
        if self.access_counter >= usize::MAX - 1 {
            self.reset_counters();
        }
        let mut lru_index: usize = 0;
        let mut lru_time: usize = self.entries[0].last_used;
        let mut i: usize = 1;
        while i < self.entries.len()
            invariant
                1 <= i <= self.entries@.len(),
                lru_index == least_recent(self.entries@, i as int),
                0 <= lru_index < i,
                lru_time == self.entries@[lru_index as int].last_used,
            decreases self.entries@.len() - i,
        {
            if self.entries[i].last_used < lru_time {
                lru_index = i;
                lru_time = self.entries[i].last_used;
            }
            i += 1;
        }
        self.access_counter += 1;
        self.entries.set(
            lru_index,
            CacheEntry { key, value: frequency, last_used: self.access_counter },
        );
    }

    /// What was put in is found: after a value was put in for a key that no
    /// entry had, a lookup of the key gives that value.
    pub proof fn lemma_insert_then_get(entries: Seq<CacheEntry>, key: CacheKey, entry: CacheEntry)
        requires
            entries.len() >= 1,
            find_key(entries, key, 0) == entries.len(),
            entry.key == key,
        ensures
            ({
                let after = entries.update(least_recent(entries, entries.len() as int), entry);
                find_key(after, key, 0) == least_recent(entries, entries.len() as int)
                    && after[find_key(after, key, 0)].value == entry.value
            }),
    {
        let at = least_recent(entries, entries.len() as int);
        lemma_least_recent(entries, entries.len() as int);
        let after = entries.update(at, entry);
        lemma_find_key(entries, key, 0);
        lemma_find_key(after, key, 0);
        let found = find_key(after, key, 0);
        if found < at {
            assert(after[found] == entries[found]);
        }
        if found > at {
            assert(after[at].key == key);
        }
    }
}

} // verus!
