//! The current generation of records, replaced whole when a load completes.
//!
//! Each load is given a ticket when it begins. Only the load begun last may
//! publish its records; a load that completes after a newer one began is
//! stale and changes nothing.
use vstd::prelude::*;
use crate::record::{records_view, RecordView, TestRecord};

verus! {

/// The model of a store: its records, the ticket of the load in flight, if
/// any, and the ticket the next load will get.
pub struct StoreView {
    pub records: Seq<RecordView>,
    pub loading: Option<u64>,
    pub next_ticket: u64,
}

/// The records of the current generation.
pub struct ResultStore {
    records: Vec<TestRecord>,
    loading: Option<u64>,
    next_ticket: u64,
}

impl View for ResultStore {
    type V = StoreView;

    closed spec fn view(&self) -> StoreView {
        StoreView {
            records: records_view(self.records@),
            loading: self.loading,
            next_ticket: self.next_ticket,
        }
    }
}

impl ResultStore {
    /// An empty store with no load in flight.
    pub fn new() -> (r: ResultStore)
        ensures
            r@.records.len() == 0,
            r@.loading is None,
            r@.next_ticket == 0,
    {
        let r = ResultStore { records: Vec::new(), loading: None, next_ticket: 0 };
        assert(records_view(r.records@) =~= Seq::<RecordView>::empty());
        r
    }

    /// The records of the current generation, in source order.
    pub fn records(&self) -> (r: &Vec<TestRecord>)
        ensures
            records_view(r@) == self@.records,
    {
        &self.records
    }

    /// Whether a load is in flight.
    pub fn is_loading(&self) -> (r: bool)
        ensures
            r == self@.loading is Some,
    {
        self.loading.is_some()
    }

    /// A load begins: it gets a fresh ticket, and any load still in flight
    /// becomes stale.
    pub fn begin_load(&mut self) -> (t: u64)
        ensures
            t == old(self)@.next_ticket,
            final(self)@ == (StoreView {
                loading: Some(t),
                next_ticket: t.wrapping_add(1),
                ..old(self)@
            }),
    {
        let t = self.next_ticket;
        self.loading = Some(t);
        self.next_ticket = t.wrapping_add(1);
        t
    }

    /// The load with ticket `ticket` produced `records`. They become the
    /// current generation if that load is the one in flight; otherwise
    /// nothing changes. Returns whether they were taken.
    pub fn finish_load(&mut self, ticket: u64, records: Vec<TestRecord>) -> (taken: bool)
        ensures
            taken == (old(self)@.loading == Some(ticket)),
            taken ==> final(self)@ == (StoreView {
                records: records_view(records@),
                loading: None,
                ..old(self)@
            }),
            !taken ==> final(self)@ == old(self)@,
    {
        let current = match self.loading {
            Some(t) => t == ticket,
            None => false,
        };
        if current {
            self.records = records;
            self.loading = None;
        }
        current
    }

    /// The load with ticket `ticket` failed. If it is the one in flight, no
    /// load is in flight any more; the records stay as they were either way.
    /// Returns whether it was the load in flight.
    pub fn fail_load(&mut self, ticket: u64) -> (current: bool)
        ensures
            current == (old(self)@.loading == Some(ticket)),
            current ==> final(self)@ == (StoreView { loading: None, ..old(self)@ }),
            !current ==> final(self)@ == old(self)@,
    {
        let current = match self.loading {
            Some(t) => t == ticket,
            None => false,
        };
        if current {
            self.loading = None;
        }
        current
    }
}

} // verus!
