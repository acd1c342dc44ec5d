//! The filtered, paginated view of a result set.
use vstd::prelude::*;
use crate::filter::{
    lemma_matching_len, lemma_matching_prefix, matching, FilterState, FilterView, PreparedFilter,
};
use crate::record::{
    lemma_records_view_full, lemma_records_view_take, records_view, RecordView, TestRecord,
};

verus! {

/// Number of records on a full page.
pub const PAGE_SIZE: usize = 100;

/// The part of `m` from position `skip` on, at most `size` long.
pub open spec fn window(m: Seq<RecordView>, skip: int, size: int) -> Seq<RecordView> {
    let lo = if skip < m.len() { skip } else { m.len() as int };
    let hi = if skip + size < m.len() { skip + size } else { m.len() as int };
    m.subrange(lo, hi)
}

/// The records shown on page `page` (zero-based) of `size` records: the
/// matching records at positions `[page * size, page * size + size)`.
pub open spec fn page_window(recs: Seq<RecordView>, f: FilterView, page: nat, size: nat) -> Seq<
    RecordView,
> {
    window(matching(recs, f), (page * size) as int, size as int)
}

/// The highest page index offered for `filtered` matches with pages of
/// `size` records: `max(filtered, size - 1) / size`. At an exact multiple of
/// `size` this counts one page more than the matches fill.
pub open spec fn page_count_of(filtered: nat, size: nat) -> nat
    recommends
        size > 0,
{
    let m = if filtered > size - 1 { filtered } else { (size - 1) as nat };
    m / size
}

/// For every page index and page size, a page holds at most `size` records,
/// and they are the matching records at positions `page * size`,
/// `page * size + 1`, ... in source order: as many as there are, up to `size`.
pub proof fn law_page_window(recs: Seq<RecordView>, f: FilterView, page: nat, size: nat)
    ensures
        ({
            let w = page_window(recs, f, page, size);
            let m = matching(recs, f);
            &&& w.len() <= size
            &&& w.len() == if page * size >= m.len() {
                0
            } else if page * size + size <= m.len() {
                size as int
            } else {
                m.len() - page * size
            }
            &&& forall|k: int| 0 <= k < w.len() ==> #[trigger] w[k] == m[page * size + k]
        }),
{
}

/// What a page of the table shows.
pub struct PageView {
    pub filtered_count: usize,
    pub page_count: usize,
    pub records: Vec<TestRecord>,
}

/// The number of records of `records` that pass `filter`.
pub fn filtered_count(records: &Vec<TestRecord>, filter: &FilterState) -> (r: usize)
    ensures
        r as nat == matching(records_view(records@), filter@).len(),
{
    let pf = PreparedFilter::new(filter);
    let mut count: usize = 0;
    let mut i: usize = 0;
    while i < records.len()
        invariant
            i <= records.len(),
            pf.filter_view() == filter@,
            count <= i,
            count == matching(records_view(records@.take(i as int)), filter@).len(),
        decreases records.len() - i,
    {
        proof {
            lemma_records_view_take(records@, i as int);
        }
        if pf.matches(&records[i]) {
            count += 1;
        }
        i += 1;
    }
    proof {
        lemma_records_view_full(records@);
    }
    count
}

/// The highest valid zero-based page index: `max(filtered, size - 1) / size`.
pub fn page_count(filtered: usize, size: usize) -> (r: usize)
    requires
        size > 0,
    ensures
        r as nat == page_count_of(filtered as nat, size as nat),
{
    let m = if filtered > size - 1 { filtered } else { size - 1 };
    m / size
}

/// The records on page `page` of `size` records among those of `records`
/// that pass `filter`, in source order. The scan stops once the page is full.
pub fn page_records(records: &Vec<TestRecord>, filter: &FilterState, page: usize, size: usize) -> (r:
    Vec<TestRecord>)
    requires
        size > 0,
    ensures
        records_view(r@) == page_window(records_view(records@), filter@, page as nat, size as nat),
        r.len() <= size,
{
    let ghost recs = records_view(records@);
    let ghost skip_int = page as int * size as int;
    proof {
        lemma_matching_len(recs, filter@);
        lemma_records_view_full(records@);
    }
    let mut out: Vec<TestRecord> = Vec::new();
    let skip = match page.checked_mul(size) {
        Some(s) => s,
        None => {
            assert((page as nat * size as nat) as int == skip_int);
            assert(matching(recs, filter@).len() <= records.len());
            assert(records_view(out@) =~= page_window(recs, filter@, page as nat, size as nat));
            return out;
        },
    };
    let pf = PreparedFilter::new(filter);
    let mut idx: usize = 0;
    let mut i: usize = 0;
    assert(records_view(out@) =~= window(matching(records_view(records@.take(0)), filter@), skip as int, size as int));
    while i < records.len() && out.len() < size
        invariant
            i <= records.len(),
            size > 0,
            skip == skip_int,
            recs == records_view(records@),
            pf.filter_view() == filter@,
            idx <= i,
            idx == matching(records_view(records@.take(i as int)), filter@).len(),
            out.len() <= size,
            records_view(out@) == window(matching(records_view(records@.take(i as int)), filter@), skip as int, size as int),
        decreases records.len() - i,
    {
        let ghost m0 = matching(records_view(records@.take(i as int)), filter@);
        proof {
            lemma_records_view_take(records@, i as int);
        }
        if pf.matches(&records[i]) {
            let ghost m1 = m0.push(records@[i as int]@);
            assert(matching(records_view(records@.take(i + 1)), filter@) == m1);
            if idx >= skip && idx - skip < size {
                let ghost before = out@;
                let rec = records[i].clone();
                out.push(rec);
                assert(out@ == before.push(rec));
                assert(records_view(out@) =~= records_view(before).push(rec@));
                assert(records_view(out@) =~= window(m1, skip as int, size as int));
            } else {
                assert(window(m1, skip as int, size as int) =~= window(m0, skip as int, size as int));
            }
            idx += 1;
        }
        i += 1;
    }
    proof {
        let mi = matching(records_view(records@.take(i as int)), filter@);
        let m = matching(recs, filter@);
        lemma_matching_prefix(recs, filter@, i as int);
        assert(records_view(records@.take(i as int)) =~= recs.take(i as int));
        if i < records.len() {
            assert(out.len() == size);
            assert(records_view(out@).len() == size);
            assert(skip + size <= mi.len());
            assert(m.take(mi.len() as int) == mi);
            assert(window(m, skip as int, size as int) =~= window(mi, skip as int, size as int));
        } else {
            assert(records@.take(i as int) =~= records@);
        }
    }
    out
}

/// The filtered count, the highest page index and the records of page
/// `page`, all over the same records and the same filter.
pub fn compute_page(records: &Vec<TestRecord>, filter: &FilterState, page: usize, size: usize) -> (r:
    PageView)
    requires
        size > 0,
    ensures
        r.filtered_count as nat == matching(records_view(records@), filter@).len(),
        r.page_count as nat == page_count_of(r.filtered_count as nat, size as nat),
        records_view(r.records@) == page_window(records_view(records@), filter@, page as nat, size as nat),
        r.records.len() <= size,
{
    let filtered = filtered_count(records, filter);
    let pages = page_count(filtered, size);
    let recs = page_records(records, filter, page, size);
    PageView { filtered_count: filtered, page_count: pages, records: recs }
}

} // verus!
