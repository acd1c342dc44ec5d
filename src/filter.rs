//! The filter that selects records: an optional status and an optional
//! settled search term.
use vstd::prelude::*;
use crate::record::{record_status, RecordView, TestRecord};
use crate::status::Status;
use crate::text::{chars_of, contains_chars, is_substring, opt_chars};

verus! {

/// The user's choice of status and settled search term. A search term, when
/// present, is matched as a case-sensitive substring of the record's name.
pub struct FilterState {
    pub status: Option<Status>,
    pub search: Option<String>,
}

/// The model of a filter.
pub struct FilterView {
    pub status: Option<Status>,
    pub search: Option<Seq<char>>,
}

impl View for FilterState {
    type V = FilterView;

    open spec fn view(&self) -> FilterView {
        FilterView {
            status: self.status,
            search: opt_chars(self.search),
        }
    }
}

/// Whether a record passes a filter: its status parses to the chosen status
/// (when one is chosen), and its name contains the search term (when one is
/// set). Absent conditions hold of every record.
pub open spec fn record_matches(r: RecordView, f: FilterView) -> bool {
    &&& (f.status matches Some(st) ==> record_status(r) == Some(st))
    &&& (f.search matches Some(term) ==> is_substring(term, r.name))
}

/// The records of `recs` that pass `f`, in source order.
pub open spec fn matching(recs: Seq<RecordView>, f: FilterView) -> Seq<RecordView>
    decreases recs.len(),
{
    if recs.len() == 0 {
        Seq::empty()
    } else if record_matches(recs.last(), f) {
        matching(recs.drop_last(), f).push(recs.last())
    } else {
        matching(recs.drop_last(), f)
    }
}

/// The positions of the records of `recs` that pass `f`.
pub open spec fn matching_positions(recs: Seq<RecordView>, f: FilterView) -> Set<int> {
    Set::new(|i: int| 0 <= i < recs.len() && record_matches(recs[i], f))
}

/// Filtering a concatenation filters each part.
pub proof fn lemma_matching_concat(a: Seq<RecordView>, b: Seq<RecordView>, f: FilterView)
    ensures
        matching(a + b, f) == matching(a, f) + matching(b, f),
    decreases b.len(),
{
    if b.len() == 0 {
        assert(a + b =~= a);
        assert(matching(a, f) + matching(b, f) =~= matching(a, f));
    } else {
        lemma_matching_concat(a, b.drop_last(), f);
        assert((a + b).drop_last() =~= a + b.drop_last());
        if record_matches(b.last(), f) {
            assert(matching(a, f) + matching(b, f) =~= (matching(a, f) + matching(b.drop_last(), f)).push(b.last()));
        }
    }
}

/// The matches among the first `i` records are the first matches of all.
pub proof fn lemma_matching_prefix(recs: Seq<RecordView>, f: FilterView, i: int)
    requires
        0 <= i <= recs.len(),
    ensures
        matching(recs.take(i), f).len() <= matching(recs, f).len(),
        matching(recs, f).take(matching(recs.take(i), f).len() as int) == matching(recs.take(i), f),
{
    lemma_matching_concat(recs.take(i), recs.skip(i), f);
    assert(recs.take(i) + recs.skip(i) =~= recs);
    assert(matching(recs, f).take(matching(recs.take(i), f).len() as int) =~= matching(recs.take(i), f));
}

/// The matches are never more than the records.
pub proof fn lemma_matching_len(recs: Seq<RecordView>, f: FilterView)
    ensures
        matching(recs, f).len() <= recs.len(),
    decreases recs.len(),
{
    if recs.len() > 0 {
        lemma_matching_len(recs.drop_last(), f);
    }
}

/// For every filter, the number of matches that a scan in source order
/// yields is the number of positions whose record passes the filter.
pub proof fn law_count_is_matching_positions(recs: Seq<RecordView>, f: FilterView)
    ensures
        matching_positions(recs, f).finite(),
        matching(recs, f).len() == matching_positions(recs, f).len(),
    decreases recs.len(),
{
    if recs.len() == 0 {
        assert(matching_positions(recs, f) =~= Set::<int>::empty());
    } else {
        let n = recs.len() - 1;
        let prev = recs.drop_last();
        law_count_is_matching_positions(prev, f);
        if record_matches(recs.last(), f) {
            assert(matching_positions(recs, f) =~= matching_positions(prev, f).insert(n));
            assert(!matching_positions(prev, f).contains(n));
        } else {
            assert(matching_positions(recs, f) =~= matching_positions(prev, f));
        }
    }
}

/// A filter with the search term's characters at hand, for repeated tests.
pub struct PreparedFilter {
    status: Option<Status>,
    search: Option<Vec<char>>,
}

impl PreparedFilter {
    /// The model of the filter this was prepared from.
    pub closed spec fn filter_view(&self) -> FilterView {
        FilterView {
            status: self.status,
            search: match self.search {
                Some(v) => Some(v@),
                None => None,
            },
        }
    }

    /// Prepares `f` for repeated tests.
    pub fn new(f: &FilterState) -> (r: PreparedFilter)
        ensures
            r.filter_view() == f@,
    {
        let search = match &f.search {
            Some(s) => Some(chars_of(s.as_str())),
            None => None,
        };
        PreparedFilter { status: f.status, search }
    }

    /// Whether `r` passes the filter.
    pub fn matches(&self, r: &TestRecord) -> (b: bool)
        ensures
            b == record_matches(r@, self.filter_view()),
    {
        let status_ok = match self.status {
            Some(st) => match r.parsed_status() {
                Some(s) => s == st,
                None => false,
            },
            None => true,
        };
        if !status_ok {
            return false;
        }
        match &self.search {
            Some(term) => contains_chars(&chars_of(r.name.as_str()), term),
            None => true,
        }
    }
}

impl FilterState {
    /// The filter that every record passes.
    pub fn none() -> (r: FilterState)
        ensures
            r@ == (FilterView { status: None, search: None }),
    {
        FilterState { status: None, search: None }
    }

    /// Whether `r` passes this filter.
    pub fn matches(&self, r: &TestRecord) -> (b: bool)
        ensures
            b == record_matches(r@, self@),
    {
        PreparedFilter::new(self).matches(r)
    }
}

} // verus!
