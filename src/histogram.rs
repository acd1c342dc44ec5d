//! Per-status counts over a result set.
use vstd::prelude::*;
use crate::record::{
    lemma_records_view_full, lemma_records_view_take, record_status, records_view, RecordView,
    TestRecord,
};
use crate::status::{all_statuses, status_index, Status};

verus! {

/// Number of records in `recs` whose status parses to `st`.
pub open spec fn count_with_status(recs: Seq<RecordView>, st: Status) -> nat
    decreases recs.len(),
{
    if recs.len() == 0 {
        0
    } else {
        count_with_status(recs.drop_last(), st) + if record_status(recs.last()) == Some(st) {
            1nat
        } else {
            0nat
        }
    }
}

/// Number of records in `recs` whose status parses to some known status.
pub open spec fn count_recognized(recs: Seq<RecordView>) -> nat
    decreases recs.len(),
{
    if recs.len() == 0 {
        0
    } else {
        count_recognized(recs.drop_last()) + if record_status(recs.last()) is Some {
            1nat
        } else {
            0nat
        }
    }
}

/// The model of a histogram: one count per status, indexed by declaration
/// order, and the total.
pub struct HistogramView {
    pub counts: Seq<nat>,
    pub total: nat,
}

impl HistogramView {
    /// One count per status, and the total is their sum.
    pub open spec fn wf(self) -> bool {
        &&& self.counts.len() == 6
        &&& self.total == sum_nat(self.counts)
    }

    /// The count of status `st`.
    pub open spec fn count(self, st: Status) -> nat {
        self.counts[status_index(st) as int]
    }
}

/// Sum of a sequence of naturals.
pub open spec fn sum_nat(s: Seq<nat>) -> nat
    decreases s.len(),
{
    if s.len() == 0 {
        0
    } else {
        sum_nat(s.drop_last()) + s.last()
    }
}

/// The histogram of a result set: every status present, unrecognized records
/// left out of every count and of the total.
pub open spec fn histogram_of(recs: Seq<RecordView>) -> HistogramView {
    HistogramView {
        counts: all_statuses().map_values(|st: Status| count_with_status(recs, st)),
        total: count_recognized(recs),
    }
}

/// Every recognized record is counted under exactly one status.
proof fn lemma_recognized_split(recs: Seq<RecordView>)
    ensures
        count_recognized(recs) == count_with_status(recs, Status::Pass)
            + count_with_status(recs, Status::Fail) + count_with_status(recs, Status::Warn)
            + count_with_status(recs, Status::Skip) + count_with_status(recs, Status::Crash)
            + count_with_status(recs, Status::Timeout),
    decreases recs.len(),
{
    if recs.len() > 0 {
        lemma_recognized_split(recs.drop_last());
    }
}

/// For every result set, the histogram's counts add up to its total, and the
/// total is the number of records whose status parses to a known status.
pub proof fn law_histogram_total(recs: Seq<RecordView>)
    ensures
        histogram_of(recs).wf(),
        sum_nat(histogram_of(recs).counts) == histogram_of(recs).total,
        histogram_of(recs).total == count_recognized(recs),
{
    lemma_recognized_split(recs);
    let c = histogram_of(recs).counts;
    reveal_with_fuel(sum_nat, 7);
    assert(c.drop_last().drop_last().drop_last().drop_last().drop_last().drop_last() =~= Seq::<nat>::empty());
}

/// Per-status counts with their total.
pub struct Histogram {
    pass: usize,
    fail: usize,
    warn: usize,
    skip: usize,
    crash: usize,
    timeout: usize,
    total: usize,
}

impl View for Histogram {
    type V = HistogramView;

    closed spec fn view(&self) -> HistogramView {
        HistogramView {
            counts: seq![
                self.pass as nat,
                self.fail as nat,
                self.warn as nat,
                self.skip as nat,
                self.crash as nat,
                self.timeout as nat,
            ],
            total: self.total as nat,
        }
    }
}

impl Histogram {
    #[verifier::type_invariant]
    closed spec fn total_is_sum(&self) -> bool {
        self.total == self.pass + self.fail + self.warn + self.skip + self.crash + self.timeout
    }

    /// The count of status `st`.
    pub fn count(&self, st: Status) -> (r: usize)
        ensures
            r as nat == self@.count(st),
    {
        match st {
            Status::Pass => self.pass,
            Status::Fail => self.fail,
            Status::Warn => self.warn,
            Status::Skip => self.skip,
            Status::Crash => self.crash,
            Status::Timeout => self.timeout,
        }
    }

    /// The number of records with a recognized status, which is the sum of
    /// the counts.
    pub fn total(&self) -> (r: usize)
        ensures
            r as nat == self@.total,
            self@.wf(),
    {
        proof {
            use_type_invariant(self);
            reveal_with_fuel(sum_nat, 7);
        }
        self.total
    }

    /// The histogram of `records`: a single pass that parses each record's
    /// status and counts it under that status, skipping unrecognized ones.
    pub fn compute(records: &Vec<TestRecord>) -> (h: Histogram)
        ensures
            h@ == histogram_of(records_view(records@)),
    {
        let mut h = Histogram { pass: 0, fail: 0, warn: 0, skip: 0, crash: 0, timeout: 0, total: 0 };
        let mut i: usize = 0;
        assert(h@.counts =~= histogram_of(records_view(records@.take(0))).counts);
        while i < records.len()
            invariant
                i <= records.len(),
                h.total <= i,
                h@ == histogram_of(records_view(records@.take(i as int))),
            decreases records.len() - i,
        {
            let ghost prev = records_view(records@.take(i as int));
            proof {
                lemma_records_view_take(records@, i as int);
                use_type_invariant(&h);
            }
            match records[i].parsed_status() {
                Some(Status::Pass) => { h = Histogram { pass: h.pass + 1, total: h.total + 1, ..h }; },
                Some(Status::Fail) => { h = Histogram { fail: h.fail + 1, total: h.total + 1, ..h }; },
                Some(Status::Warn) => { h = Histogram { warn: h.warn + 1, total: h.total + 1, ..h }; },
                Some(Status::Skip) => { h = Histogram { skip: h.skip + 1, total: h.total + 1, ..h }; },
                Some(Status::Crash) => { h = Histogram { crash: h.crash + 1, total: h.total + 1, ..h }; },
                Some(Status::Timeout) => {
                    h = Histogram { timeout: h.timeout + 1, total: h.total + 1, ..h };
                },
                None => {},
            }
            i += 1;
            assert(h@.counts =~= histogram_of(records_view(records@.take(i as int))).counts);
        }
        proof {
            lemma_records_view_full(records@);
        }
        h
    }
}

} // verus!
