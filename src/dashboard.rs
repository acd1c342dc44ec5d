//! The dashboard's state: the result store, the filter, the search box and
//! the current page, with every derived view recomputed from them.
use vstd::prelude::*;
use crate::chart::{pie_of, segments_view, PieSegment};
use crate::debounce::{
    commit_step, fire_result, fire_step, input_step, DebouncerView, FireOutcome, SearchDebouncer,
    TimerCommand,
};
use crate::filter::{matching, FilterState, FilterView};
use crate::histogram::{histogram_of, Histogram};
use crate::page::{
    compute_page, filtered_count, page_count, page_count_of, page_window, PageView, PAGE_SIZE,
};
use crate::pagination::{first_button, last_button, page_range, PaginationLayout};
use crate::record::{records_view, TestRecord};
use crate::status::Status;
use crate::store::{ResultStore, StoreView};

verus! {

/// The model of the dashboard.
pub struct DashboardView {
    pub store: StoreView,
    pub filter: FilterView,
    pub search: DebouncerView,
    pub page: nat,
}

/// The highest page index for the records and filter of `v`.
pub open spec fn last_page(v: DashboardView) -> nat {
    page_count_of(matching(v.store.records, v.filter).len(), PAGE_SIZE as nat)
}

/// The state behind the dashboard.
pub struct Dashboard {
    store: ResultStore,
    filter: FilterState,
    search: SearchDebouncer,
    page: usize,
}

impl View for Dashboard {
    type V = DashboardView;

    closed spec fn view(&self) -> DashboardView {
        DashboardView {
            store: self.store@,
            filter: self.filter@,
            search: self.search@,
            page: self.page as nat,
        }
    }
}

impl Dashboard {
    /// No records, no filter, no search, first page.
    pub fn new() -> (r: Dashboard)
        ensures
            r@.store.records.len() == 0,
            r@.store.loading is None,
            r@.filter == (FilterView { status: None, search: None }),
            r@.search == (DebouncerView { raw: None, pending: None, next_token: 0 }),
            r@.page == 0,
    {
        Dashboard {
            store: ResultStore::new(),
            filter: FilterState::none(),
            search: SearchDebouncer::new(),
            page: 0,
        }
    }

    /// The records of the current generation.
    pub fn records(&self) -> (r: &Vec<TestRecord>)
        ensures
            records_view(r@) == self@.store.records,
    {
        self.store.records()
    }

    /// The filter in force.
    pub fn filter(&self) -> (r: &FilterState)
        ensures
            r@ == self@.filter,
    {
        &self.filter
    }

    /// The current page index.
    pub fn current_page(&self) -> (r: usize)
        ensures
            r as nat == self@.page,
    {
        self.page
    }

    /// Whether a load is in flight.
    pub fn is_loading(&self) -> (r: bool)
        ensures
            r == self@.store.loading is Some,
    {
        self.store.is_loading()
    }

    /// A load begins; see `ResultStore::begin_load`.
    pub fn begin_load(&mut self) -> (t: u64)
        ensures
            t == old(self)@.store.next_ticket,
            final(self)@ == (DashboardView {
                store: StoreView {
                    loading: Some(t),
                    next_ticket: t.wrapping_add(1),
                    ..old(self)@.store
                },
                ..old(self)@
            }),
    {
        self.store.begin_load()
    }

    /// A load completed with `records`; see `ResultStore::finish_load`. The
    /// filter and the current page stay as they are.
    pub fn finish_load(&mut self, ticket: u64, records: Vec<TestRecord>) -> (taken: bool)
        ensures
            taken == (old(self)@.store.loading == Some(ticket)),
            taken ==> final(self)@ == (DashboardView {
                store: StoreView {
                    records: records_view(records@),
                    loading: None,
                    ..old(self)@.store
                },
                ..old(self)@
            }),
            !taken ==> final(self)@ == old(self)@,
    {
        self.store.finish_load(ticket, records)
    }

    /// A load failed; see `ResultStore::fail_load`. The records stay.
    pub fn fail_load(&mut self, ticket: u64) -> (current: bool)
        ensures
            current == (old(self)@.store.loading == Some(ticket)),
            current ==> final(self)@ == (DashboardView {
                store: StoreView { loading: None, ..old(self)@.store },
                ..old(self)@
            }),
            !current ==> final(self)@ == old(self)@,
    {
        self.store.fail_load(ticket)
    }

    /// The user chose a status to filter by (or none). The current page goes
    /// back to the first.
    pub fn set_status_filter(&mut self, status: Option<Status>)
        ensures
            final(self)@ == (DashboardView {
                filter: FilterView { status, ..old(self)@.filter },
                page: 0,
                ..old(self)@
            }),
    {
        self.filter.status = status;
        self.page = 0;
    }

    /// The user typed in the search box; the filter is not updated yet.
    pub fn search_input(&mut self, text: String)
        ensures
            final(self)@ == (DashboardView { search: input_step(old(self)@.search, text@), ..old(self)@ }),
    {
        self.search.input(text);
    }

    /// A commit trigger in the search box; the host must cancel and arm
    /// timers as the command says.
    pub fn search_commit(&mut self) -> (c: TimerCommand)
        ensures
            final(self)@ == (DashboardView { search: commit_step(old(self)@.search), ..old(self)@ }),
            c.cancel == old(self)@.search.pending,
            c.arm == old(self)@.search.next_token,
    {
        self.search.commit()
    }

    /// The search timer `token` fired. If it is the armed one, the raw text
    /// becomes the search term and the current page goes back to the first;
    /// otherwise nothing but the debouncer's state is touched, and that is
    /// left as it was. Returns whether the search term settled.
    pub fn search_timer_fired(&mut self, token: u64) -> (settled: bool)
        ensures
            settled == fire_result(old(self)@.search, token) is Some,
            final(self)@.search == fire_step(old(self)@.search, token),
            final(self)@.store == old(self)@.store,
            final(self)@.filter.status == old(self)@.filter.status,
            settled ==> final(self)@.filter.search == old(self)@.search.raw,
            settled ==> final(self)@.page == 0,
            !settled ==> final(self)@ == old(self)@,
    {
        match self.search.fire(token) {
            FireOutcome::Settled(term) => {
                self.filter.search = term;
                self.page = 0;
                true
            },
            FireOutcome::Stale => false,
        }
    }

    /// The user moved to page `page`. Nothing else changes.
    pub fn go_to_page(&mut self, page: usize)
        ensures
            final(self)@ == (DashboardView { page: page as nat, ..old(self)@ }),
    {
        self.page = page;
    }

    /// The highest page index for the current records and filter.
    pub fn page_count(&self) -> (r: usize)
        ensures
            r as nat == last_page(self@),
    {
        page_count(filtered_count(self.store.records(), &self.filter), PAGE_SIZE)
    }

    /// The user pressed First.
    pub fn go_first(&mut self)
        ensures
            final(self)@ == (DashboardView { page: 0, ..old(self)@ }),
    {
        self.page = 0;
    }

    /// The user pressed Previous: one page back, unless on the first.
    pub fn go_previous(&mut self)
        ensures
            final(self)@ == (DashboardView {
                page: if old(self)@.page > 0 { (old(self)@.page - 1) as nat } else { 0 },
                ..old(self)@
            }),
    {
        if self.page > 0 {
            self.page = self.page - 1;
        }
    }

    /// The user pressed Next: one page on, unless on the last.
    pub fn go_next(&mut self)
        ensures
            final(self)@ == (DashboardView {
                page: if old(self)@.page < last_page(old(self)@) {
                    old(self)@.page + 1
                } else {
                    old(self)@.page
                },
                ..old(self)@
            }),
    {
        let last = self.page_count();
        if self.page < last {
            self.page = self.page + 1;
        }
    }

    /// The user pressed Last.
    pub fn go_last(&mut self)
        ensures
            final(self)@ == (DashboardView { page: last_page(old(self)@), ..old(self)@ }),
    {
        self.page = self.page_count();
    }

    /// The histogram of the current records.
    pub fn histogram(&self) -> (h: Histogram)
        ensures
            h@ == histogram_of(self@.store.records),
    {
        Histogram::compute(self.store.records())
    }

    /// The pie slices of the current records' histogram.
    pub fn chart(&self) -> (r: Vec<PieSegment>)
        ensures
            segments_view(r@) == pie_of(histogram_of(self@.store.records)),
    {
        PieSegment::chart(&self.histogram())
    }

    /// The filtered count, the highest page index and the current page's
    /// records, over the current records and filter.
    pub fn page_view(&self) -> (r: PageView)
        ensures
            r.filtered_count as nat == matching(self@.store.records, self@.filter).len(),
            r.page_count as nat == last_page(self@),
            records_view(r.records@) == page_window(
                self@.store.records,
                self@.filter,
                self@.page,
                PAGE_SIZE as nat,
            ),
            r.records.len() <= PAGE_SIZE,
    {
        compute_page(self.store.records(), &self.filter, self.page, PAGE_SIZE)
    }

    /// The pagination bar for the current page, with `radius` page buttons
    /// on each side.
    pub fn pagination(&self, radius: usize) -> (r: PaginationLayout)
        ensures
            r.buttons@.map_values(|b: usize| b as int) == page_range(
                first_button(self@.page, radius as nat),
                last_button(self@.page, last_page(self@), radius as nat),
            ),
            r.show_left_ellipsis == (self@.page > radius),
            r.show_right_ellipsis == ((self@.page as int) < (if last_page(self@) >= radius {
                last_page(self@) - radius
            } else {
                0
            })),
            r.at_first == (self@.page == 0),
            r.at_last == (self@.page >= last_page(self@)),
    {
        PaginationLayout::layout(self.page, self.page_count(), radius)
    }
}

} // verus!
