use cts_report::dashboard::Dashboard;
use cts_report::page::PAGE_SIZE;
use cts_report::record::TestRecord;
use cts_report::status::Status;
use cts_report::store::ResultStore;

fn many(n: usize) -> Vec<TestRecord> {
    (0..n)
        .map(|i| {
            TestRecord::new(
                format!("case{}", i),
                if i % 3 == 0 { "Fail".to_string() } else { "Pass".to_string() },
                "1".to_string(),
            )
        })
        .collect()
}

fn loaded(n: usize) -> Dashboard {
    let mut d = Dashboard::new();
    let t = d.begin_load();
    assert!(d.is_loading());
    assert!(d.finish_load(t, many(n)));
    assert!(!d.is_loading());
    d
}

#[test]
fn status_filter_change_resets_page() {
    let mut d = loaded(450);
    d.go_to_page(3);
    assert_eq!(d.current_page(), 3);
    d.set_status_filter(Some(Status::Pass));
    assert_eq!(d.current_page(), 0);
    d.go_next();
    assert_eq!(d.current_page(), 1);
    d.set_status_filter(None);
    assert_eq!(d.current_page(), 0);
}

#[test]
fn settled_search_resets_page_and_stale_timer_does_not() {
    let mut d = loaded(450);
    d.go_to_page(2);
    d.search_input("case1".to_string());
    let first = d.search_commit();
    let second = d.search_commit();
    assert_eq!(second.cancel, Some(first.arm));
    assert!(!d.search_timer_fired(first.arm));
    assert_eq!(d.current_page(), 2);
    assert_eq!(d.filter().search, None);
    assert!(d.search_timer_fired(second.arm));
    assert_eq!(d.current_page(), 0);
    assert_eq!(d.filter().search.as_deref(), Some("case1"));
    let v = d.page_view();
    // case1, case10..case19, case100..case199
    assert_eq!(v.filtered_count, 111);
    assert_eq!(v.records.len(), PAGE_SIZE);
}

#[test]
fn paging_does_not_touch_filter() {
    let mut d = loaded(450);
    d.set_status_filter(Some(Status::Fail));
    d.go_to_page(1);
    assert_eq!(d.filter().status, Some(Status::Fail));
    let v = d.page_view();
    assert_eq!(v.filtered_count, 150);
    assert_eq!(v.page_count, 1);
    assert_eq!(v.records.len(), 50);
    assert_eq!(v.records[0].name, "case300");
}

#[test]
fn navigation_buttons_stay_in_range() {
    let mut d = loaded(250);
    assert_eq!(d.page_count(), 2);
    d.go_previous();
    assert_eq!(d.current_page(), 0);
    d.go_last();
    assert_eq!(d.current_page(), 2);
    d.go_next();
    assert_eq!(d.current_page(), 2);
    d.go_previous();
    assert_eq!(d.current_page(), 1);
    d.go_first();
    assert_eq!(d.current_page(), 0);
    let l = d.pagination(1);
    assert_eq!(l.buttons, vec![0, 1]);
    assert!(l.at_first);
}

#[test]
fn dashboard_histogram_and_chart() {
    let d = loaded(9);
    let h = d.histogram();
    assert_eq!(h.count(Status::Fail), 3);
    assert_eq!(h.count(Status::Pass), 6);
    let segs = d.chart();
    assert_eq!(segs.len(), 2);
    assert_eq!((segs[0].start, segs[0].end, segs[0].total), (0, 6, 9));
    assert_eq!((segs[1].start, segs[1].end, segs[1].total), (6, 9, 9));
}

#[test]
fn stale_load_is_refused() {
    let mut s = ResultStore::new();
    let older = s.begin_load();
    let newer = s.begin_load();
    assert!(s.finish_load(newer, many(3)));
    assert!(!s.finish_load(older, many(7)));
    assert_eq!(s.records().len(), 3);
    let again = s.begin_load();
    assert!(s.fail_load(again));
    assert_eq!(s.records().len(), 3);
    assert!(!s.is_loading());
}

#[test]
fn load_finishing_out_of_order_keeps_newest() {
    let mut d = Dashboard::new();
    let older = d.begin_load();
    let newer = d.begin_load();
    assert!(!d.finish_load(older, many(5)));
    assert_eq!(d.records().len(), 0);
    assert!(d.finish_load(newer, many(2)));
    assert_eq!(d.records().len(), 2);
}

#[test]
fn reload_keeps_current_page() {
    let mut d = loaded(450);
    d.go_to_page(2);
    let t = d.begin_load();
    assert!(d.finish_load(t, many(10)));
    assert_eq!(d.current_page(), 2);
    assert!(d.page_view().records.is_empty());
}
