//! Time series of the overview page, and their stable ordering by time.
use vstd::prelude::*;

verus! {

/// One value of a series at one moment.
#[derive(Clone, Copy, Debug, Default, PartialEq, Eq, Structural)]
pub struct TimeSeriesPoint {
    /// Milliseconds since the Unix epoch.
    pub timestamp: i64,
    pub value: u64,
}

/// The points of `s` stamped `t`, in their order.
pub open spec fn with_stamp(s: Seq<TimeSeriesPoint>, t: i64) -> Seq<TimeSeriesPoint>
    decreases s.len(),
{
    if s.len() == 0 {
        s
    } else if s.last().timestamp == t {
        with_stamp(s.drop_last(), t).push(s.last())
    } else {
        with_stamp(s.drop_last(), t)
    }
}

/// The points are in ascending order of time.
pub open spec fn sorted_by_time(s: Seq<TimeSeriesPoint>) -> bool {
    forall|i: int, j: int| 0 <= i <= j < s.len() ==> s[i].timestamp <= s[j].timestamp
}

/// `out` is `input` sorted by time, with points of equal time kept in their
/// order (what a stable sort by timestamp gives).
pub open spec fn stably_sorted(out: Seq<TimeSeriesPoint>, input: Seq<TimeSeriesPoint>) -> bool {
    &&& sorted_by_time(out)
    &&& forall|t: i64| #[trigger] with_stamp(out, t) == with_stamp(input, t)
}

proof fn lemma_with_stamp_append(a: Seq<TimeSeriesPoint>, b: Seq<TimeSeriesPoint>, t: i64)
    ensures
        with_stamp(a + b, t) == with_stamp(a, t) + with_stamp(b, t),
    decreases b.len(),
{
    if b.len() == 0 {
        assert(a + b =~= a);
        assert(with_stamp(a, t) + with_stamp(b, t) =~= with_stamp(a, t));
    } else {
        lemma_with_stamp_append(a, b.drop_last(), t);
        assert((a + b).drop_last() =~= a + b.drop_last());
        assert((a + b).last() == b.last());
        if b.last().timestamp == t {
            assert(with_stamp(a, t) + with_stamp(b, t) =~= (with_stamp(a, t) + with_stamp(
                b.drop_last(),
                t,
            )).push(b.last()));
        }
    }
}

proof fn lemma_with_stamp_none(s: Seq<TimeSeriesPoint>, t: i64)
    requires
        forall|i: int| 0 <= i < s.len() ==> (#[trigger] s[i]).timestamp != t,
    ensures
        with_stamp(s, t) == Seq::<TimeSeriesPoint>::empty(),
    decreases s.len(),
{
    if s.len() > 0 {
        lemma_with_stamp_none(s.drop_last(), t);
        assert(s.last() == s[s.len() - 1]);
    }
}

/// Inserts `p` after every point of `out` that is not later than it.
proof fn lemma_insert_keeps_order(out: Seq<TimeSeriesPoint>, p: TimeSeriesPoint, pos: int, t: i64)
    requires
        0 <= pos <= out.len(),
        forall|i: int| 0 <= i < pos ==> (#[trigger] out[i]).timestamp <= p.timestamp,
        forall|i: int| pos <= i < out.len() ==> (#[trigger] out[i]).timestamp > p.timestamp,
    ensures
        with_stamp(out.insert(pos, p), t) == (if p.timestamp == t {
            with_stamp(out, t).push(p)
        } else {
            with_stamp(out, t)
        }),
{
    let front = out.subrange(0, pos);
    let back = out.subrange(pos, out.len() as int);
    assert(out =~= front + back);
    assert(out.insert(pos, p) =~= front.push(p) + back);
    lemma_with_stamp_append(front.push(p), back, t);
    lemma_with_stamp_append(front, back, t);
    assert(front.push(p).drop_last() =~= front);
    if p.timestamp == t {
        assert forall|i: int| 0 <= i < back.len() implies (#[trigger] back[i]).timestamp != t by {
            assert(back[i] == out[pos + i]);
        }
        lemma_with_stamp_none(back, t);
        assert(with_stamp(front, t) + with_stamp(back, t) =~= with_stamp(front, t));
        assert(with_stamp(front.push(p), t) + with_stamp(back, t) =~= with_stamp(front, t).push(p));
    }
}

/// The points sorted by time; points of equal time keep their order.
pub fn sort_points(points: &Vec<TimeSeriesPoint>) -> (r: Vec<TimeSeriesPoint>)
    ensures
        stably_sorted(r@, points@),
{
    let mut out: Vec<TimeSeriesPoint> = Vec::new();
    let mut i: usize = 0;
    while i < points.len()
        invariant
            i <= points@.len(),
            sorted_by_time(out@),
            forall|t: i64| #[trigger] with_stamp(out@, t) == with_stamp(points@.take(i as int), t),
        decreases points.len() - i,
    {
        let p = points[i];
        let mut pos: usize = 0;
        while pos < out.len() && out[pos].timestamp <= p.timestamp
            invariant
                pos <= out@.len(),
                sorted_by_time(out@),
                forall|k: int| 0 <= k < pos ==> (#[trigger] out@[k]).timestamp <= p.timestamp,
            decreases out.len() - pos,
        {
            pos = pos + 1;
        }
        let ghost before = out@;
        proof {
            assert forall|k: int| pos <= k < before.len() implies (#[trigger] before[k]).timestamp
                > p.timestamp by {
                assert(before[pos as int].timestamp > p.timestamp);
                assert(before[pos as int].timestamp <= before[k].timestamp);
            }
        }
        out.insert(pos, p);
        proof {
            assert(points@.take(i + 1) =~= points@.take(i as int).push(p));
            assert forall|t: i64| #[trigger] with_stamp(out@, t) == with_stamp(points@.take(i + 1), t) by {
                lemma_insert_keeps_order(before, p, pos as int, t);
                assert(points@.take(i + 1).drop_last() =~= points@.take(i as int));
            }
            assert forall|a: int, b: int| 0 <= a <= b < out@.len() implies out@[a].timestamp
                <= out@[b].timestamp by {
                before.insert_ensures(pos as int, p);
            }
        }
        i = i + 1;
    }
    proof {
        assert(points@.take(i as int) =~= points@);
    }
    out
}

} // verus!
