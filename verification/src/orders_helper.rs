use vstd::prelude::*;

verus! {

/// Whether an order byte marks the end of a song.
pub open spec fn is_order_mark(o: u8) -> bool {
    o == 254 || o == 255
}

/// The songs closed so far and the song that is open after the first `i`
/// order bytes: a mark closes the open song if it holds a pattern, and any
/// other byte adds its pattern to the open song.
pub open spec fn spec_split_orders(orders: Seq<u8>, i: int) -> (Seq<Seq<usize>>, Seq<usize>)
    decreases i,
{
    if i <= 0 {
        (Seq::empty(), Seq::empty())
    } else {
        let (closed, open) = spec_split_orders(orders, i - 1);
        let o = orders[i - 1];
        if is_order_mark(o) {
            if open.len() > 0 {
                (closed.push(open), Seq::empty())
            } else {
                (closed, open)
            }
        } else {
            (closed, open.push(o as usize))
        }
    }
}

/// The songs of an order table: its runs of pattern indices between marks,
/// without the empty runs.
pub open spec fn spec_parse_orders(orders: Seq<u8>) -> Seq<Seq<usize>> {
    let (closed, open) = spec_split_orders(orders, orders.len() as int);
    if open.len() > 0 {
        closed.push(open)
    } else {
        closed
    }
}

/// Whether the song holds pattern indices only, no mark.
pub open spec fn song_is_clean(song: Seq<usize>) -> bool {
    forall|k: int| 0 <= k < song.len() ==> (#[trigger] song[k]) < 254
}

/// Whether every song holds a pattern, and pattern indices only.
pub open spec fn songs_are_clean(songs: Seq<Seq<usize>>) -> bool {
    forall|s: int|
        0 <= s < songs.len() ==> (#[trigger] songs[s]).len() > 0 && song_is_clean(songs[s])
}

/// No song of an order table is empty, and no song holds a mark.
pub proof fn lemma_split_orders(orders: Seq<u8>, i: int)
    requires
        0 <= i <= orders.len(),
    ensures
        songs_are_clean(spec_split_orders(orders, i).0),
        song_is_clean(spec_split_orders(orders, i).1),
    decreases i,
{
    if i > 0 {
        lemma_split_orders(orders, i - 1);
        let (closed, open) = spec_split_orders(orders, i - 1);
        let o = orders[i - 1];
        let now = spec_split_orders(orders, i);
        if is_order_mark(o) {
            if open.len() > 0 {
                assert forall|s: int| 0 <= s < now.0.len() implies (#[trigger] now.0[s]).len() > 0
                    && song_is_clean(now.0[s]) by {
                    if s < closed.len() {
                        assert(now.0[s] == closed[s]);
                    } else {
                        assert(now.0[s] == open);
                    }
                }
            }
        } else {
            assert forall|k: int| 0 <= k < now.1.len() implies (#[trigger] now.1[k]) < 254 by {
                if k < open.len() {
                    assert(now.1[k] == open[k]);
                }
            }
        }
    }
}

/// The songs of an order table are clean.
pub proof fn lemma_parse_orders_clean(orders: Seq<u8>)
    ensures
        songs_are_clean(spec_parse_orders(orders)),
{
    lemma_split_orders(orders, orders.len() as int);
    let (closed, open) = spec_split_orders(orders, orders.len() as int);
    let all = spec_parse_orders(orders);
    assert forall|s: int| 0 <= s < all.len() implies (#[trigger] all[s]).len() > 0
        && song_is_clean(all[s]) by {
        if s < closed.len() {
            assert(all[s] == closed[s]);
        } else {
            assert(all[s] == open);
        }
    }
}

/// Splits an order table into its songs.
pub fn parse_orders(orders: &[u8]) -> (r: Vec<Vec<usize>>)
    ensures
        r.deep_view() == spec_parse_orders(orders@),
        songs_are_clean(r.deep_view()),
{
    let mut result: Vec<Vec<usize>> = Vec::new();
    let mut current_group: Vec<usize> = Vec::new();
    let mut i: usize = 0;
    while i < orders.len()
        invariant
            0 <= i <= orders.len(),
            (result.deep_view(), current_group@) == spec_split_orders(orders@, i as int),
        decreases orders.len() - i,
    {
        let o: u8 = orders[i];
        let ghost before = result.deep_view();
        if o == 254 || o == 255 {
            if current_group.len() > 0 {
                let ghost done = current_group@;
                proof {
                    assert(current_group.deep_view() =~= done);
                }
                result.push(current_group);
                current_group = Vec::new();
                proof {
                    assert(result.deep_view() =~= before.push(done));
                }
            }
        } else {
            current_group.push(o as usize);
        }
        i += 1;
    }
    let ghost before = result.deep_view();
    if current_group.len() > 0 {
        let ghost done = current_group@;
        proof {
            assert(current_group.deep_view() =~= done);
        }
        result.push(current_group);
        proof {
            assert(result.deep_view() =~= before.push(done));
        }
    }
    proof {
        lemma_parse_orders_clean(orders@);
    }
    result
}

} // verus!
