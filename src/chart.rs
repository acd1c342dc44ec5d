//! Pie-chart geometry: one slice per status with a non-zero count.
use vstd::prelude::*;
use crate::histogram::{sum_nat, Histogram, HistogramView};
use crate::status::{all_statuses, status_index, Status};

verus! {

/// One slice of the pie. It covers the fractions `start / total` up to
/// `end / total` of the full circle.
#[derive(Clone, Copy, Debug, PartialEq, Eq, Structural)]
pub struct PieSegment {
    pub status: Status,
    pub start: usize,
    pub end: usize,
    pub total: usize,
}

/// The model of a slice.
pub struct SegmentView {
    pub status: Status,
    pub start: nat,
    pub end: nat,
    pub total: nat,
}

impl View for PieSegment {
    type V = SegmentView;

    open spec fn view(&self) -> SegmentView {
        SegmentView {
            status: self.status,
            start: self.start as nat,
            end: self.end as nat,
            total: self.total as nat,
        }
    }
}

/// The models of a sequence of slices.
pub open spec fn segments_view(s: Seq<PieSegment>) -> Seq<SegmentView> {
    s.map_values(|p: PieSegment| p@)
}

/// Sum of the counts of the first `k` statuses in declaration order.
pub open spec fn prefix_count(h: HistogramView, k: nat) -> nat {
    sum_nat(h.counts.take(k as int))
}

/// The slices of the first `k` statuses in declaration order, skipping
/// statuses with a zero count.
pub open spec fn segments_upto(h: HistogramView, k: nat) -> Seq<SegmentView>
    decreases k,
{
    if k == 0 {
        Seq::empty()
    } else {
        let prev = segments_upto(h, (k - 1) as nat);
        let c = h.counts[k - 1];
        if c > 0 {
            prev.push(
                SegmentView {
                    status: all_statuses()[k - 1],
                    start: prefix_count(h, (k - 1) as nat),
                    end: prefix_count(h, (k - 1) as nat) + c,
                    total: h.total,
                },
            )
        } else {
            prev
        }
    }
}

/// The pie of a histogram: nothing when the total is zero, else one slice per
/// status with a non-zero count, in declaration order, each starting where
/// the one before ended.
pub open spec fn pie_of(h: HistogramView) -> Seq<SegmentView> {
    if h.total == 0 {
        Seq::empty()
    } else {
        segments_upto(h, 6)
    }
}

/// Sum of the spans of a sequence of slices.
pub open spec fn span_sum(s: Seq<SegmentView>) -> nat
    decreases s.len(),
{
    if s.len() == 0 {
        0
    } else {
        span_sum(s.drop_last()) + (s.last().end - s.last().start) as nat
    }
}

/// A prefix sum grows by the next element.
proof fn lemma_prefix_step(h: HistogramView, k: nat)
    requires
        k < h.counts.len(),
    ensures
        prefix_count(h, k + 1) == prefix_count(h, k) + h.counts[k as int],
{
    assert(h.counts.take(k + 1 as int).drop_last() =~= h.counts.take(k as int));
}

/// A prefix sum is at most the whole sum.
proof fn lemma_prefix_le_sum(s: Seq<nat>, k: int)
    requires
        0 <= k <= s.len(),
    ensures
        sum_nat(s.take(k)) <= sum_nat(s),
    decreases s.len(),
{
    if k < s.len() {
        lemma_prefix_le_sum(s.drop_last(), k);
        assert(s.drop_last().take(k) =~= s.take(k));
    } else {
        assert(s.take(k) =~= s);
    }
}

/// What holds of the slices of the first `k` statuses.
proof fn lemma_segments_upto(h: HistogramView, k: nat)
    requires
        h.wf(),
        k <= 6,
    ensures
        ({
            let s = segments_upto(h, k);
            &&& s.len() == 0 ==> prefix_count(h, k) == 0
            &&& s.len() > 0 ==> s[0].start == 0 && s.last().end == prefix_count(h, k)
            &&& forall|i: int| 0 <= i < s.len() - 1 ==> #[trigger] s[i].end == s[i + 1].start
            &&& forall|i: int|
                0 <= i < s.len() ==> {
                    &&& status_index(#[trigger] s[i].status) < k
                    &&& s[i].start < s[i].end
                    &&& s[i].end - s[i].start == h.count(s[i].status)
                    &&& s[i].total == h.total
                }
            &&& forall|i: int, j: int|
                0 <= i < j < s.len() ==> status_index(#[trigger] s[i].status) < status_index(
                    #[trigger] s[j].status,
                )
            &&& forall|j: int|
                0 <= j < k && h.counts[j] > 0 ==> exists|i: int|
                    0 <= i < s.len() && #[trigger] s[i].status == #[trigger] all_statuses()[j]
            &&& span_sum(s) == prefix_count(h, k)
        }),
    decreases k,
{
    if k == 0 {
        assert(h.counts.take(0) =~= Seq::<nat>::empty());
    } else {
        let km = (k - 1) as nat;
        lemma_segments_upto(h, km);
        lemma_prefix_step(h, km);
        let prev = segments_upto(h, km);
        let s = segments_upto(h, k);
        let st = all_statuses()[km as int];
        assert(status_index(st) == km);
        if h.counts[km as int] > 0 {
            assert(s.drop_last() == prev);
            assert forall|j: int| 0 <= j < k && h.counts[j] > 0 implies exists|i: int|
                0 <= i < s.len() && #[trigger] s[i].status == #[trigger] all_statuses()[j] by {
                if j < km {
                    let i = choose|i: int| 0 <= i < prev.len() && #[trigger] prev[i].status == #[trigger] all_statuses()[j];
                    assert(s[i] == prev[i]);
                } else {
                    assert(s[s.len() - 1].status == all_statuses()[j]);
                }
            }
        } else {
            assert forall|j: int| 0 <= j < k && h.counts[j] > 0 implies exists|i: int|
                0 <= i < s.len() && #[trigger] s[i].status == #[trigger] all_statuses()[j] by {
                assert(j < km);
            }
        }
    }
}

/// For every histogram with a non-zero total, the slices cover the whole
/// circle: the first starts at zero, each starts where the one before ended,
/// the last ends at the total, and their spans add up to the total. No slice
/// is empty, every status with a non-zero count has a slice, slices follow
/// declaration order, and each slice spans exactly its status's count. A
/// histogram with a zero total has no slices.
pub proof fn law_pie_covers_circle(h: HistogramView)
    requires
        h.wf(),
    ensures
        h.total == 0 ==> pie_of(h).len() == 0,
        h.total > 0 ==> {
            let s = pie_of(h);
            &&& s.len() > 0
            &&& s[0].start == 0
            &&& s.last().end == h.total
            &&& span_sum(s) == h.total
            &&& forall|i: int| 0 <= i < s.len() - 1 ==> #[trigger] s[i].end == s[i + 1].start
            &&& forall|i: int|
                0 <= i < s.len() ==> {
                    &&& s[i].start < s[i].end
                    &&& s[i].end - s[i].start == h.count(#[trigger] s[i].status)
                }
            &&& forall|i: int, j: int|
                0 <= i < j < s.len() ==> status_index(#[trigger] s[i].status) < status_index(
                    #[trigger] s[j].status,
                )
            &&& forall|st: Status|
                h.count(st) > 0 ==> exists|i: int| 0 <= i < s.len() && #[trigger] s[i].status == st
        },
{
    lemma_segments_upto(h, 6);
    assert(h.counts.take(6) =~= h.counts);
    let s = pie_of(h);
    if h.total > 0 {
        assert forall|st: Status| h.count(st) > 0 implies exists|i: int|
            0 <= i < s.len() && #[trigger] s[i].status == st by {
            let j = status_index(st) as int;
            assert(all_statuses()[j] == st);
        }
    }
}

impl PieSegment {
    /// The slices of the pie of `h`.
    pub fn chart(h: &Histogram) -> (r: Vec<PieSegment>)
        ensures
            segments_view(r@) == pie_of(h@),
    {
        let total = h.total();
        let mut out: Vec<PieSegment> = Vec::new();
        if total == 0 {
            assert(segments_view(out@) =~= pie_of(h@));
            return out;
        }
        let statuses = Status::all();
        let mut cumulative: usize = 0;
        let mut i: usize = 0;
        assert(h@.counts.take(0) =~= Seq::<nat>::empty());
        assert(segments_view(out@) =~= segments_upto(h@, 0));
        while i < statuses.len()
            invariant
                statuses@ == all_statuses(),
                h@.wf(),
                total as nat == h@.total,
                total > 0,
                i <= 6,
                cumulative as nat == prefix_count(h@, i as nat),
                segments_view(out@) == segments_upto(h@, i as nat),
            decreases 6 - i,
        {
            let st = statuses[i];
            let c = h.count(st);
            proof {
                lemma_prefix_step(h@, i as nat);
                lemma_prefix_le_sum(h@.counts, i + 1);
                assert(status_index(st) == i);
            }
            if c > 0 {
                let seg = PieSegment { status: st, start: cumulative, end: cumulative + c, total };
                let ghost before = out@;
                out.push(seg);
                assert(segments_view(out@) =~= segments_view(before).push(seg@));
            }
            cumulative = cumulative + c;
            i += 1;
        }
        out
    }
}

} // verus!
