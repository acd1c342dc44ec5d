use cts_report::chart::PieSegment;
use cts_report::filter::FilterState;
use cts_report::histogram::Histogram;
use cts_report::page::{compute_page, filtered_count, page_count, page_records, PAGE_SIZE};
use cts_report::record::TestRecord;
use cts_report::status::Status;

fn rec(name: &str, status: &str, duration: &str) -> TestRecord {
    TestRecord::new(name.to_string(), status.to_string(), duration.to_string())
}

fn sample() -> Vec<TestRecord> {
    vec![
        rec("a", "Pass", "1.0"),
        rec("b", "Fail", "2.0"),
        rec("c", "Pass", "3.0"),
        rec("d", "Bogus", "4.0"),
    ]
}

fn names(v: &[TestRecord]) -> Vec<String> {
    v.iter().map(|r| r.name.clone()).collect()
}

fn filter(status: Option<Status>, search: Option<&str>) -> FilterState {
    FilterState { status, search: search.map(|s| s.to_string()) }
}

#[test]
fn sample_histogram_counts_known_statuses() {
    let h = Histogram::compute(&sample());
    assert_eq!(h.count(Status::Pass), 2);
    assert_eq!(h.count(Status::Fail), 1);
    assert_eq!(h.count(Status::Warn), 0);
    assert_eq!(h.count(Status::Skip), 0);
    assert_eq!(h.count(Status::Crash), 0);
    assert_eq!(h.count(Status::Timeout), 0);
    assert_eq!(h.total(), 3);
}

#[test]
fn histogram_counts_sum_to_total() {
    let recs = vec![
        rec("t1", "Warn", "0"),
        rec("t2", "Skip", "0"),
        rec("t3", "Crash", "0"),
        rec("t4", "Timeout", "0"),
        rec("t5", "Timeout", "0"),
        rec("t6", "timeout", "0"),
        rec("t7", "", "0"),
    ];
    let h = Histogram::compute(&recs);
    let sum: usize = Status::all().iter().map(|s| h.count(*s)).sum();
    assert_eq!(sum, h.total());
    assert_eq!(h.total(), 5);
    assert_eq!(h.count(Status::Timeout), 2);
}

#[test]
fn empty_result_set_has_zero_histogram() {
    let h = Histogram::compute(&Vec::new());
    assert_eq!(h.total(), 0);
    for s in Status::all() {
        assert_eq!(h.count(s), 0);
    }
}

#[test]
fn sample_filter_by_status_pass() {
    let v = compute_page(&sample(), &filter(Some(Status::Pass), None), 0, PAGE_SIZE);
    assert_eq!(v.filtered_count, 2);
    assert_eq!(names(&v.records), vec!["a", "c"]);
    assert_eq!(v.page_count, 0);
}

#[test]
fn sample_filter_by_search_c() {
    let v = compute_page(&sample(), &filter(None, Some("c")), 0, PAGE_SIZE);
    assert_eq!(v.filtered_count, 1);
    assert_eq!(names(&v.records), vec!["c"]);
}

#[test]
fn no_filter_keeps_unrecognized_records() {
    let v = compute_page(&sample(), &FilterState::none(), 0, PAGE_SIZE);
    assert_eq!(v.filtered_count, 4);
    assert_eq!(names(&v.records), vec!["a", "b", "c", "d"]);
}

#[test]
fn status_and_search_are_both_required() {
    let recs = vec![
        rec("alpha", "Pass", "1"),
        rec("alphabet", "Fail", "1"),
        rec("beta", "Pass", "1"),
        rec("Alpha", "Pass", "1"),
    ];
    let f = filter(Some(Status::Pass), Some("alpha"));
    assert_eq!(filtered_count(&recs, &f), 1);
    assert_eq!(names(&page_records(&recs, &f, 0, 10)), vec!["alpha"]);
}

#[test]
fn search_is_case_sensitive_substring() {
    let recs = vec![rec("dEQP-VK.api.info", "Pass", "1"), rec("dEQP-VK.API.info", "Pass", "1")];
    let f = filter(None, Some("api"));
    assert_eq!(filtered_count(&recs, &f), 1);
    let f = filter(None, Some("VK.a"));
    assert_eq!(names(&page_records(&recs, &f, 0, 10)), vec!["dEQP-VK.api.info"]);
    let f = filter(None, Some("info.x"));
    assert_eq!(filtered_count(&recs, &f), 0);
}

#[test]
fn filtered_count_matches_independent_count() {
    let mut recs = Vec::new();
    for i in 0..57 {
        let status = match i % 4 {
            0 => "Pass",
            1 => "Fail",
            2 => "Skip",
            _ => "Unknown",
        };
        recs.push(rec(&format!("case.{}", i), status, "1"));
    }
    let f = filter(Some(Status::Fail), Some("1"));
    let expected = recs
        .iter()
        .filter(|r| r.status == "Fail" && r.name.contains("1"))
        .count();
    assert_eq!(filtered_count(&recs, &f), expected);
    for r in &recs {
        assert_eq!(f.matches(r), r.status == "Fail" && r.name.contains("1"));
    }
}

fn many(n: usize) -> Vec<TestRecord> {
    (0..n).map(|i| rec(&format!("t{}", i), if i % 2 == 0 { "Pass" } else { "Fail" }, "1")).collect()
}

#[test]
fn page_is_window_of_matches() {
    let recs = many(500);
    let f = filter(Some(Status::Pass), None);
    let v = compute_page(&recs, &f, 2, 100);
    assert_eq!(v.filtered_count, 250);
    assert_eq!(v.records.len(), 50);
    let expected: Vec<String> = (200..250).map(|k| format!("t{}", 2 * k)).collect();
    assert_eq!(names(&v.records), expected);
    let first = compute_page(&recs, &f, 0, 100);
    assert_eq!(first.records.len(), 100);
    assert_eq!(first.records[0].name, "t0");
    assert_eq!(first.records[99].name, "t198");
}

#[test]
fn page_past_the_end_is_empty() {
    let recs = many(30);
    assert!(page_records(&recs, &FilterState::none(), 3, 10).is_empty());
    assert!(page_records(&recs, &FilterState::none(), usize::MAX, 10).is_empty());
    assert!(page_records(&recs, &FilterState::none(), usize::MAX / 2, 3).is_empty());
}

#[test]
fn page_size_one_walks_matches() {
    let recs = sample();
    let f = filter(Some(Status::Pass), None);
    assert_eq!(names(&page_records(&recs, &f, 0, 1)), vec!["a"]);
    assert_eq!(names(&page_records(&recs, &f, 1, 1)), vec!["c"]);
    assert!(page_records(&recs, &f, 2, 1).is_empty());
}

#[test]
fn page_count_at_exact_multiple_counts_an_extra_page() {
    assert_eq!(page_count(100, 100), 1);
}

#[test]
fn page_count_formula_values() {
    assert_eq!(page_count(0, 100), 0);
    assert_eq!(page_count(1, 100), 0);
    assert_eq!(page_count(99, 100), 0);
    assert_eq!(page_count(101, 100), 1);
    assert_eq!(page_count(199, 100), 1);
    assert_eq!(page_count(200, 100), 2);
    assert_eq!(page_count(5, 1), 5);
    assert_eq!(page_count(0, 1), 0);
}

#[test]
fn chart_of_sample() {
    let h = Histogram::compute(&sample());
    let segs = PieSegment::chart(&h);
    assert_eq!(segs.len(), 2);
    assert_eq!(segs[0], PieSegment { status: Status::Pass, start: 0, end: 2, total: 3 });
    assert_eq!(segs[1], PieSegment { status: Status::Fail, start: 2, end: 3, total: 3 });
}

#[test]
fn chart_fractions_cover_circle_in_order() {
    let recs = vec![
        rec("1", "Timeout", "0"),
        rec("2", "Skip", "0"),
        rec("3", "Pass", "0"),
        rec("4", "Skip", "0"),
        rec("5", "Crash", "0"),
        rec("6", "Nope", "0"),
    ];
    let segs = PieSegment::chart(&Histogram::compute(&recs));
    let order: Vec<Status> = segs.iter().map(|s| s.status).collect();
    assert_eq!(order, vec![Status::Pass, Status::Skip, Status::Crash, Status::Timeout]);
    let sum: f64 = segs.iter().map(|s| (s.end - s.start) as f64 / s.total as f64).sum();
    assert!((sum - 1.0).abs() < 1e-9);
    assert_eq!(segs[0].start, 0);
    for w in segs.windows(2) {
        assert_eq!(w[0].end, w[1].start);
    }
    assert_eq!(segs.last().unwrap().end, 5);
    assert!(segs.iter().all(|s| s.end > s.start));
}

#[test]
fn chart_of_zero_total_is_empty() {
    let recs = vec![rec("x", "Unknown", "1")];
    assert!(PieSegment::chart(&Histogram::compute(&recs)).is_empty());
    assert!(PieSegment::chart(&Histogram::compute(&Vec::new())).is_empty());
}
