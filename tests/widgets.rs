use cts_report::debounce::{FireOutcome, SearchDebouncer};
use cts_report::duration::{format_hms, HmsParts};
use cts_report::pagination::PaginationLayout;
use cts_report::record::TestRecord;
use cts_report::status::Status;
use cts_report::text::{chars_of, contains_chars, same_chars};

#[test]
fn status_parse_exact_names() {
    assert_eq!(Status::parse("Pass"), Some(Status::Pass));
    assert_eq!(Status::parse("Fail"), Some(Status::Fail));
    assert_eq!(Status::parse("Warn"), Some(Status::Warn));
    assert_eq!(Status::parse("Skip"), Some(Status::Skip));
    assert_eq!(Status::parse("Crash"), Some(Status::Crash));
    assert_eq!(Status::parse("Timeout"), Some(Status::Timeout));
    assert_eq!(Status::parse("pass"), None);
    assert_eq!(Status::parse("Pass "), None);
    assert_eq!(Status::parse(""), None);
    assert_eq!(Status::parse("Bogus"), None);
}

#[test]
fn status_names_round_trip_in_order() {
    let all = Status::all();
    assert_eq!(all.len(), 6);
    for (i, s) in all.iter().enumerate() {
        assert_eq!(s.index(), i);
        assert_eq!(Status::parse(&s.name()), Some(*s));
        assert_eq!(s.name_chars().iter().collect::<String>(), s.name());
    }
    assert_eq!(all[0], Status::Pass);
    assert_eq!(all[5], Status::Timeout);
}

#[test]
fn status_colors_and_glyphs() {
    assert_eq!(Status::Pass.color(), "#22c55e");
    assert_eq!(Status::Fail.color(), "#ff6467");
    assert_eq!(Status::Skip.color(), "#38bdf8");
    assert_eq!(Status::Timeout.color(), "#F77600");
    assert_eq!(Status::Warn.color(), "#ffdf20");
    assert_eq!(Status::Crash.color(), "#e7000b");
    assert_eq!(Status::Pass.emoji(), "\u{2705}");
    assert_eq!(Status::Crash.emoji(), "\u{1f4a5}");
    assert_eq!(Status::Timeout.emoji(), "\u{23f1}\u{fe0f}");
}

#[test]
fn substring_search_on_chars() {
    let hay = chars_of("héllo wörld");
    assert!(contains_chars(&hay, &chars_of("")));
    assert!(contains_chars(&hay, &chars_of("wö")));
    assert!(contains_chars(&hay, &chars_of("héllo wörld")));
    assert!(!contains_chars(&hay, &chars_of("World")));
    assert!(!contains_chars(&hay, &chars_of("héllo wörld!")));
    assert!(!contains_chars(&chars_of(""), &chars_of("a")));
    assert!(same_chars(&chars_of("abc"), &vec!['a', 'b', 'c']));
    assert!(!same_chars(&chars_of("abc"), &chars_of("abd")));
}

#[test]
fn rapid_triggers_settle_once_with_last_value() {
    let mut d = SearchDebouncer::new();
    d.input("a".to_string());
    let c1 = d.commit();
    assert_eq!(c1.cancel, None);
    d.input("ab".to_string());
    let c2 = d.commit();
    assert_eq!(c2.cancel, Some(c1.arm));
    d.input("abc".to_string());
    let c3 = d.commit();
    assert_eq!(c3.cancel, Some(c2.arm));
    assert!(d.is_pending());
    assert!(matches!(d.fire(c1.arm), FireOutcome::Stale));
    assert!(matches!(d.fire(c2.arm), FireOutcome::Stale));
    match d.fire(c3.arm) {
        FireOutcome::Settled(Some(s)) => assert_eq!(s, "abc"),
        other => panic!("unexpected outcome {:?}", other),
    }
    assert!(!d.is_pending());
    assert!(matches!(d.fire(c3.arm), FireOutcome::Stale));
}

#[test]
fn empty_text_settles_to_no_search() {
    let mut d = SearchDebouncer::new();
    d.input("x".to_string());
    d.input(String::new());
    let c = d.commit();
    assert!(matches!(d.fire(c.arm), FireOutcome::Settled(None)));
}

#[test]
fn fire_without_trigger_is_stale() {
    let mut d = SearchDebouncer::new();
    d.input("x".to_string());
    assert!(matches!(d.fire(0), FireOutcome::Stale));
}

#[test]
fn pagination_layout_middle() {
    let l = PaginationLayout::layout(5, 10, 2);
    assert_eq!(l.buttons, vec![3, 4, 5, 6, 7]);
    assert!(l.show_left_ellipsis);
    assert!(l.show_right_ellipsis);
    assert!(!l.at_first);
    assert!(!l.at_last);
}

#[test]
fn pagination_layout_edges() {
    let l = PaginationLayout::layout(0, 10, 2);
    assert_eq!(l.buttons, vec![0, 1, 2]);
    assert!(!l.show_left_ellipsis);
    assert!(l.show_right_ellipsis);
    assert!(l.at_first);
    let l = PaginationLayout::layout(10, 10, 1);
    assert_eq!(l.buttons, vec![9, 10]);
    assert!(l.show_left_ellipsis);
    assert!(!l.show_right_ellipsis);
    assert!(l.at_last);
    let l = PaginationLayout::layout(0, 0, 2);
    assert_eq!(l.buttons, vec![0]);
    assert!(l.at_first && l.at_last);
    assert!(!l.show_left_ellipsis && !l.show_right_ellipsis);
    let l = PaginationLayout::layout(2, 10, 2);
    assert!(!l.show_left_ellipsis);
    let l = PaginationLayout::layout(8, 10, 2);
    assert!(!l.show_right_ellipsis);
    let l = PaginationLayout::layout(7, 10, 2);
    assert!(l.show_right_ellipsis);
}

#[test]
fn pagination_layout_large_values() {
    let l = PaginationLayout::layout(usize::MAX, usize::MAX, 1);
    assert_eq!(l.buttons, vec![usize::MAX - 1, usize::MAX]);
    let l = PaginationLayout::layout(12, 3, 2);
    assert!(l.buttons.is_empty());
}

#[test]
fn duration_split() {
    let p = HmsParts::from_millis(3_723_004);
    assert_eq!(p, HmsParts { hours: 1, minutes: 2, seconds: 3, millis: 4 });
}

#[test]
fn duration_text_forms() {
    assert_eq!(format_hms(0), "0:0:0.0");
    assert_eq!(format_hms(1_500), "0:0:1.500");
    assert_eq!(format_hms(61_005), "0:1:01.5");
    assert_eq!(format_hms(754_120), "0:12:34.120");
    assert_eq!(format_hms(3_723_004), "1:02:03.4");
    assert_eq!(format_hms(36_000_000), "10:00:00.0");
}

#[test]
fn status_badge_label_and_color() {
    let r = TestRecord::new("t".to_string(), "Warn".to_string(), "1".to_string());
    assert_eq!(r.status_label(), "Warn");
    assert_eq!(r.status_color(), "#ffdf20");
    let r = TestRecord::new("t".to_string(), "Bogus".to_string(), "1".to_string());
    assert_eq!(r.status_label(), "Unrecognized");
    assert_eq!(r.status_color(), "#FFF");
    let c = r.clone();
    assert_eq!(c.name, "t");
    assert_eq!(c.status, "Bogus");
    assert_eq!(c.duration, "1");
}
