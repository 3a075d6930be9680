use backup_tags::catalog::periods;
use backup_tags::evaluate::{evaluate, EvaluateError};
use backup_tags::tags::Tag;

// 2025-07-01T00:00:00Z as a UTC timestamp.
const JUL_1_2025: i64 = 1751328000;

fn keys_of(tags: &[Tag]) -> Vec<String> {
    tags.iter().map(|t| t.key.clone()).collect()
}

#[test]
fn catalog_expressions_with_defaults() {
    let ps = periods(0, 30, 4);
    assert_eq!(ps.len(), 5);
    assert_eq!(ps[0].0, "30 4 * * *");
    assert_eq!(ps[1].0, "30 4 * * 6");
    assert_eq!(ps[2].0, "30 4 1 * *");
    assert_eq!(ps[3].0, "30 4 1 */3 *");
    assert_eq!(ps[4].0, "30 4 1 1 *");
    assert_eq!(ps[0].1.key, "nightly");
    assert_eq!(ps[1].1.key, "weekly");
    assert_eq!(ps[2].1.key, "monthly");
    assert_eq!(ps[3].1.key, "quarterly");
    assert_eq!(ps[4].1.key, "yearly");
    for p in &ps {
        assert_eq!(p.1.value, "1");
    }
    assert!(!ps[0].2);
    assert!(!ps[1].2);
    assert!(ps[2].2);
    assert!(ps[3].2);
    assert!(ps[4].2);
}

#[test]
fn catalog_expressions_with_offsets() {
    let ps = periods(2, 45, 4);
    assert_eq!(ps[0].0, "45 6 * * *");
    let ps = periods(-2, 0, 4);
    assert_eq!(ps[0].0, "0 2 * * *");
}

#[test]
fn exact_occurrence_matches_nightly() {
    // 04:30:00Z with the default offsets: the nightly occurrence is now.
    let now = JUL_1_2025 + 4 * 3600 + 30 * 60;
    let ts = evaluate(now, 20 * 60, &periods(0, 30, 4)).unwrap();
    assert_eq!(keys_of(&ts.tag_set), vec!["standard", "nightly"]);
}

#[test]
fn boundary_at_window_is_excluded() {
    // 04:20:00Z: the nightly occurrence is 600 seconds ahead.
    let now = JUL_1_2025 + 4 * 3600 + 20 * 60;
    let ps = periods(0, 30, 4);
    let at_window = evaluate(now, 600, &ps).unwrap();
    assert_eq!(keys_of(&at_window.tag_set), vec!["standard"]);
    let inside_window = evaluate(now, 601, &ps).unwrap();
    assert_eq!(keys_of(&inside_window.tag_set), vec!["standard", "nightly"]);
}

#[test]
fn baseline_tag_present_when_nothing_matches() {
    // Mid-day, far from every occurrence.
    let now = JUL_1_2025 + 12 * 3600;
    let ts = evaluate(now, 20 * 60, &periods(0, 30, 4)).unwrap();
    assert_eq!(keys_of(&ts.tag_set), vec!["standard"]);
    assert_eq!(ts.tag_set[0].value, "1");
}

#[test]
fn baseline_tag_present_with_empty_catalog() {
    let ts = evaluate(JUL_1_2025, 1200, &Vec::new()).unwrap();
    assert_eq!(keys_of(&ts.tag_set), vec!["standard"]);
}

#[test]
fn tags_keep_catalog_order() {
    // 2025-06-30T04:30:00Z, one day before a month and quarter start:
    // nightly, monthly and quarterly all match; the order is the
    // catalog's.
    let now = JUL_1_2025 - 86400 + 4 * 3600 + 30 * 60;
    let ts = evaluate(now, 20 * 60, &periods(0, 30, 4)).unwrap();
    assert_eq!(
        keys_of(&ts.tag_set),
        vec!["standard", "nightly", "monthly", "quarterly"]
    );
}

#[test]
fn yearly_matches_on_new_years_eve() {
    // 2025-12-31T04:30:00Z: one day before the yearly (and monthly and
    // quarterly) occurrence of 2026-01-01T04:30:00Z.
    let dec_31 = 1767155400;
    let ts = evaluate(dec_31, 20 * 60, &periods(0, 30, 4)).unwrap();
    assert_eq!(
        keys_of(&ts.tag_set),
        vec!["standard", "nightly", "monthly", "quarterly", "yearly"]
    );
}

#[test]
fn malformed_expression_is_skipped_silently() {
    // An out-of-range minute offset makes every expression unparseable:
    // the result is the baseline tag alone, not an error.
    let now = JUL_1_2025 + 4 * 3600 + 30 * 60;
    let ts = evaluate(now, 20 * 60, &periods(0, 99, 4)).unwrap();
    assert_eq!(keys_of(&ts.tag_set), vec!["standard"]);
}

#[test]
fn jitter_underflow_is_a_clock_error() {
    // The quarter-window jitter reaches before the supported range.
    let r = evaluate(100, 1200, &periods(0, 30, 4));
    assert_eq!(r.unwrap_err(), EvaluateError::ClockAdjustment);
}
