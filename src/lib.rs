//! Derived state of a test-results dashboard.
//!
//! From an ordered set of test-run records and the user's filter, search and
//! page choices, this crate computes a per-status histogram, pie-chart slices,
//! the filtered count, the highest page index, the records of the current
//! page and the layout of the pagination bar. Search keystrokes are debounced
//! through a small state machine whose timers the host runs, and loads of new
//! records are ticketed so that only the newest one is published.
pub mod chart;
pub mod dashboard;
pub mod debounce;
pub mod duration;
pub mod filter;
pub mod histogram;
pub mod page;
pub mod pagination;
pub mod record;
pub mod status;
pub mod store;
pub mod text;
