use crate::amount::{Amount, AMOUNT_ONE};
use vstd::prelude::*;

verus! {

/// A point of an envelope: a frame on the time axis and a value from 0 to 1.
#[derive(Clone, Copy, Debug, PartialEq, Eq, Structural)]
pub struct EnvelopePoint {
    pub frame: usize,
    pub value: Amount,
}

/// The way from the value `from` to the value `to` that is covered when
/// `done` of `whole` frames have passed, rounded down to a raw unit.
pub open spec fn travelled(from: int, to: int, done: int, whole: int) -> int {
    if to >= from {
        ((to - from) * done) / whole
    } else {
        ((from - to) * done) / whole
    }
}

/// The raw value at frame `pos` on the straight line from `a` to `b`: the
/// value of `a` up to its frame, that of `b` from its frame on, and between
/// them the value of `a` moved towards that of `b` by the way travelled.
pub open spec fn spec_lerp(a: EnvelopePoint, b: EnvelopePoint, pos: usize) -> int {
    if pos <= a.frame {
        a.value.raw as int
    } else if pos >= b.frame {
        b.value.raw as int
    } else {
        let way = travelled(
            a.value.raw as int,
            b.value.raw as int,
            pos - a.frame,
            b.frame - a.frame,
        );
        if b.value.raw >= a.value.raw {
            a.value.raw + way
        } else {
            a.value.raw - way
        }
    }
}

impl EnvelopePoint {
    /// The value of the point lies between 0 and 1.
    pub open spec fn wf(self) -> bool {
        0 <= self.value.raw <= AMOUNT_ONE
    }

    /// The point at frame 0 with the value 0.
    pub fn default() -> (r: EnvelopePoint)
        ensures
            r.frame == 0,
            r.value.raw == 0,
            r.wf(),
    {
        EnvelopePoint { frame: 0, value: Amount::zero() }
    }

    /// Linear interpolation between two points.
    pub fn lerp(a: &EnvelopePoint, b: &EnvelopePoint, pos: usize) -> (r: Amount)
        requires
            a.wf(),
            b.wf(),
        ensures
            r@ == spec_lerp(*a, *b, pos),
            pos <= a.frame ==> r == a.value,
            pos > a.frame && pos >= b.frame ==> r == b.value,
            a.value.raw <= b.value.raw ==> a.value.raw <= r.raw <= b.value.raw,
            b.value.raw <= a.value.raw ==> b.value.raw <= r.raw <= a.value.raw,
    {
        if pos <= a.frame {
            a.value
        } else if pos >= b.frame {
            b.value
        } else {
            let done: u128 = (pos - a.frame) as u128;
            let whole: u128 = (b.frame - a.frame) as u128;
            if b.value.raw >= a.value.raw {
                let span: u128 = (b.value.raw - a.value.raw) as u128;
                assert(span * done <= span * whole && span * whole <= 65280 * whole && 65280 * whole
                    <= 65280 * 0x1_0000_0000_0000_0000) by (nonlinear_arith)
                    requires
                        0 <= span <= 65280,
                        0 < done < whole,
                        whole <= 0x1_0000_0000_0000_0000,
                ;
                let way: u128 = (span * done) / whole;
                assert(way <= span) by (nonlinear_arith)
                    requires
                        way == (span * done) / (whole as int),
                        0 <= span,
                        0 < done < whole,
                ;
                Amount { raw: a.value.raw + way as i64 }
            } else {
                let span: u128 = (a.value.raw - b.value.raw) as u128;
                assert(span * done <= span * whole && span * whole <= 65280 * whole && 65280 * whole
                    <= 65280 * 0x1_0000_0000_0000_0000) by (nonlinear_arith)
                    requires
                        0 <= span <= 65280,
                        0 < done < whole,
                        whole <= 0x1_0000_0000_0000_0000,
                ;
                let way: u128 = (span * done) / whole;
                assert(way <= span) by (nonlinear_arith)
                    requires
                        way == (span * done) / (whole as int),
                        0 <= span,
                        0 < done < whole,
                ;
                Amount { raw: a.value.raw - way as i64 }
            }
        }
    }
}

/// An envelope: points in the order of their frames, with a sustain range
/// and a loop range given by indices of points.
#[derive(Clone, Debug)]
pub struct Envelope {
    pub enabled: bool,
    pub point: Vec<EnvelopePoint>,
    pub sustain_enabled: bool,
    /// Index in `point`.
    pub sustain_start_point: usize,
    /// Index in `point`.
    pub sustain_end_point: usize,
    pub loop_enabled: bool,
    /// Index in `point`.
    pub loop_start_point: usize,
    /// Index in `point`.
    pub loop_end_point: usize,
}

/// The frame that playback is at when it reaches `frame` in a range that
/// ends at the frame `end` and starts at the frame `start`: past the end it
/// is back at the start, up to the end it is where it is.
pub open spec fn wrapped(enabled: bool, frame: usize, start: usize, end: usize) -> usize {
    if enabled && frame > end {
        start
    } else {
        frame
    }
}

impl Envelope {
    /// The ranges that are enabled are given by indices of points.
    pub open spec fn wf(&self) -> bool {
        &&& self.sustain_enabled ==> self.sustain_start_point < self.point@.len()
            && self.sustain_end_point < self.point@.len()
        &&& self.loop_enabled ==> self.loop_start_point < self.point@.len() && self.loop_end_point
            < self.point@.len()
    }

    /// An envelope without points that is switched off.
    pub fn default() -> (r: Envelope)
        ensures
            r.wf(),
            !r.enabled,
            !r.sustain_enabled,
            !r.loop_enabled,
            r.point@.len() == 0,
            r.sustain_start_point == 0,
            r.sustain_end_point == 0,
            r.loop_start_point == 0,
            r.loop_end_point == 0,
    {
        Envelope {
            enabled: false,
            point: Vec::new(),
            sustain_enabled: false,
            sustain_start_point: 0,
            sustain_end_point: 0,
            loop_enabled: false,
            loop_start_point: 0,
            loop_end_point: 0,
        }
    }

    /// The frame to go on from while the note is held: back at the start of
    /// the sustain range once `frame` is past its end.
    pub fn loop_in_sustain(&self, frame: usize) -> (r: usize)
        requires
            self.wf(),
        ensures
            r == (if self.sustain_enabled {
                wrapped(
                    true,
                    frame,
                    self.point@[self.sustain_start_point as int].frame,
                    self.point@[self.sustain_end_point as int].frame,
                )
            } else {
                frame
            }),
    {
        if self.sustain_enabled {
            let sustain_end = self.point[self.sustain_end_point].frame;
            if frame > sustain_end {
                return self.point[self.sustain_start_point].frame;
            }
        }
        frame
    }

    /// The frame to go on from in the loop: back at the start of the loop
    /// range once `frame` is past its end.
    pub fn loop_in_loop(&self, frame: usize) -> (r: usize)
        requires
            self.wf(),
        ensures
            r == (if self.loop_enabled {
                wrapped(
                    true,
                    frame,
                    self.point@[self.loop_start_point as int].frame,
                    self.point@[self.loop_end_point as int].frame,
                )
            } else {
                frame
            }),
    {
        if self.loop_enabled {
            let loop_end = self.point[self.loop_end_point].frame;
            if frame > loop_end {
                return self.point[self.loop_start_point].frame;
            }
        }
        frame
    }
}

/// The place at which a point of frame `frame` goes into points that are in
/// the order of their frames: after the last point whose frame is not
/// greater.
pub open spec fn insertion_index(sorted: Seq<EnvelopePoint>, frame: usize) -> int
    decreases sorted.len(),
{
    if sorted.len() == 0 {
        0
    } else if sorted.last().frame <= frame {
        sorted.len() as int
    } else {
        insertion_index(sorted.drop_last(), frame)
    }
}

/// The points in the order of their frames; points of one frame stay in the
/// order in which they came.
pub open spec fn spec_sort_points(points: Seq<EnvelopePoint>) -> Seq<EnvelopePoint>
    decreases points.len(),
{
    if points.len() == 0 {
        Seq::empty()
    } else {
        let before = spec_sort_points(points.drop_last());
        before.insert(insertion_index(before, points.last().frame), points.last())
    }
}

/// Whether the frames of the points do not go down.
pub open spec fn frames_ascend(points: Seq<EnvelopePoint>) -> bool {
    forall|i: int, j: int|
        0 <= i <= j < points.len() ==> (#[trigger] points[i]).frame <= (#[trigger] points[j]).frame
}

/// The insertion index lies within the points; where the frames ascend, the
/// points before it have frames that are not greater, and those from it on
/// have greater frames.
pub proof fn lemma_insertion_index(sorted: Seq<EnvelopePoint>, frame: usize)
    ensures
        0 <= insertion_index(sorted, frame) <= sorted.len(),
        frames_ascend(sorted) ==> forall|k: int|
            0 <= k < insertion_index(sorted, frame) ==> (#[trigger] sorted[k]).frame <= frame,
        forall|k: int|
            insertion_index(sorted, frame) <= k < sorted.len() ==> (#[trigger] sorted[k]).frame
                > frame,
    decreases sorted.len(),
{
    if sorted.len() > 0 {
        if sorted.last().frame <= frame {
            if frames_ascend(sorted) {
                assert forall|k: int| 0 <= k < sorted.len() implies (#[trigger] sorted[k]).frame
                    <= frame by {
                    assert(sorted[k].frame <= sorted[sorted.len() - 1].frame);
                }
            }
        } else {
            let front = sorted.drop_last();
            lemma_insertion_index(front, frame);
            if frames_ascend(sorted) {
                assert forall|i: int, j: int| 0 <= i <= j < front.len() implies (
                #[trigger] front[i]).frame <= (#[trigger] front[j]).frame by {
                    assert(front[i] == sorted[i]);
                    assert(front[j] == sorted[j]);
                }
            }
            assert forall|k: int|
                insertion_index(sorted, frame) <= k < sorted.len() implies (
            #[trigger] sorted[k]).frame > frame by {
                if k < front.len() {
                    assert(front[k] == sorted[k]);
                }
            }
            assert forall|k: int| 0 <= k < insertion_index(sorted, frame) implies front[k]
                == sorted[k] by {}
        }
    }
}

/// Sorted points have ascending frames, and are as many as there were.
pub proof fn lemma_sort_points(points: Seq<EnvelopePoint>)
    ensures
        frames_ascend(spec_sort_points(points)),
        spec_sort_points(points).len() == points.len(),
    decreases points.len(),
{
    if points.len() > 0 {
        lemma_sort_points(points.drop_last());
        let before = spec_sort_points(points.drop_last());
        let p = points.last();
        let at = insertion_index(before, p.frame);
        lemma_insertion_index(before, p.frame);
        let now = before.insert(at, p);
        assert forall|i: int, j: int| 0 <= i <= j < now.len() implies (#[trigger] now[i]).frame <= (
        #[trigger] now[j]).frame by {
            if j < at {
                assert(now[i] == before[i] && now[j] == before[j]);
            } else if j == at {
                if i < at {
                    assert(now[i] == before[i]);
                }
            } else {
                assert(now[j] == before[j - 1]);
                if i < at {
                    assert(now[i] == before[i]);
                } else if i > at {
                    assert(now[i] == before[i - 1]);
                }
            }
        }
    }
}

/// Puts points in the order of their frames. Points of one frame stay in
/// the order in which they came.
pub fn sort_points(points: &Vec<EnvelopePoint>) -> (r: Vec<EnvelopePoint>)
    ensures
        r@ == spec_sort_points(points@),
        frames_ascend(r@),
        r@.len() == points@.len(),
{
    let mut out: Vec<EnvelopePoint> = Vec::new();
    let mut n: usize = 0;
    while n < points.len()
        invariant
            0 <= n <= points.len(),
            out@ == spec_sort_points(points@.take(n as int)),
            out@.len() == n,
        decreases points.len() - n,
    {
        let p = points[n];
        let mut i: usize = out.len();
        proof {
            assert(out@.take(out@.len() as int) =~= out@);
        }
        while i > 0 && out[i - 1].frame > p.frame
            invariant
                0 <= i <= out@.len(),
                insertion_index(out@, p.frame) == insertion_index(out@.take(i as int), p.frame),
            decreases i,
        {
            proof {
                assert(out@.take(i as int).drop_last() =~= out@.take(i - 1));
            }
            i -= 1;
        }
        proof {
            assert(out@.take(out@.len() as int) =~= out@);
            assert(points@.take(n + 1).drop_last() =~= points@.take(n as int));
            if i > 0 {
                assert(out@.take(i as int).last() == out@[i - 1]);
            }
        }
        out.insert(i, p);
        n += 1;
    }
    proof {
        assert(points@.take(points.len() as int) =~= points@);
        lemma_sort_points(points@);
    }
    out
}

/// The envelope point that four bytes at `at` hold: the frame and then the
/// value in sixty-fourths, each 16 bits with the low byte first.
pub open spec fn xm_point_at(src: Seq<u8>, at: int) -> EnvelopePoint {
    EnvelopePoint {
        frame: (src[at] as int + 256 * src[at + 1] as int) as usize,
        value: Amount::spec_ratio(src[at + 2] as int + 256 * src[at + 3] as int, 64),
    }
}

/// The points that the bytes hold, four bytes to a point; bytes at the end
/// that make no whole point are left out.
pub open spec fn xm_points(src: Seq<u8>) -> Seq<EnvelopePoint> {
    Seq::new(src.len() / 4, |i: int| xm_point_at(src, 4 * i))
}

/// An envelope with the points that the bytes hold, switched off and with
/// all ranges at 0.
pub fn envelope_from_slice(src: &[u8]) -> (r: Option<Envelope>)
    ensures
        r.is_some(),
        r.unwrap().point@ == xm_points(src@),
        !r.unwrap().enabled,
        !r.unwrap().sustain_enabled,
        !r.unwrap().loop_enabled,
        r.unwrap().sustain_start_point == 0,
        r.unwrap().sustain_end_point == 0,
        r.unwrap().loop_start_point == 0,
        r.unwrap().loop_end_point == 0,
{
    let mut e = Envelope::default();
    let n: usize = src.len() / 4;
    let mut i: usize = 0;
    while i < n
        invariant
            0 <= i <= n,
            n == src@.len() / 4,
            src@.len() <= usize::MAX,
            e.point@.len() == i,
            forall|k: int| 0 <= k < i ==> (#[trigger] e.point@[k]) == xm_point_at(src@, 4 * k),
            !e.enabled,
            !e.sustain_enabled,
            !e.loop_enabled,
            e.sustain_start_point == 0,
            e.sustain_end_point == 0,
            e.loop_start_point == 0,
            e.loop_end_point == 0,
        decreases n - i,
    {
        let frame: usize = src[4 * i] as usize + 256 * (src[4 * i + 1] as usize);
        let value: i32 = src[4 * i + 2] as i32 + 256 * (src[4 * i + 3] as i32);
        e.point.push(EnvelopePoint { frame, value: Amount::ratio(value, 64) });
        i += 1;
    }
    assert(e.point@ =~= xm_points(src@));
    Some(e)
}

/// Whether an envelope cannot be used as an XM envelope: it has more than
/// twelve points, or a start or the end of its loop is no index of a point,
/// or a range ends before it starts.
pub fn is_envelope_nok(e: &Envelope) -> (r: bool)
    ensures
        r == (e.point@.len() > 12 || e.sustain_start_point >= e.point@.len() || e.loop_start_point
            >= e.point@.len() || e.loop_end_point >= e.point@.len() || e.loop_start_point
            > e.loop_end_point || e.sustain_start_point > e.sustain_end_point),
{
    e.point.len() > 12 || e.sustain_start_point >= e.point.len() || e.loop_start_point
        >= e.point.len() || e.loop_end_point >= e.point.len() || e.loop_start_point
        > e.loop_end_point || e.sustain_start_point > e.sustain_end_point
}

} // verus!
