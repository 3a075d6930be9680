//! The schedule tag evaluator: given "now", a lag-window tolerance and the
//! period catalog, decides which period tags apply and produces the
//! ordered tag set, always led by the baseline tag.
//!
//! Instants are UTC timestamps in whole seconds. The supported instant
//! range runs from the epoch through the end of year 9999; arithmetic
//! that leaves it is a fatal clock-adjustment error.

use vstd::prelude::*;
use vstd::math::abs;

use crate::tags::{baseline_tag, Tag};

verus! {

/// The last supported instant: 9999-12-31T23:59:59Z as a UTC timestamp.
pub const MAX_INSTANT: i64 = 253402300799;

/// An instant the evaluator supports: a UTC timestamp between the epoch
/// and the end of year 9999.
pub open spec fn valid_instant(t: int) -> bool {
    0 <= t <= MAX_INSTANT
}

/// Instant arithmetic left the supported range while the jitter
/// adjustment was applied; fatal and non-retryable.
#[derive(Debug, Clone, PartialEq, Eq)]
pub enum EvaluateError {
    ClockAdjustment,
}

/// The first occurrence of the cron expression `expr` strictly after
/// `after`, or `None` when the expression is rejected or no occurrence is
/// representable. The value is fixed by `expr` and `after` alone.
pub uninterp spec fn cron_next_of(expr: Seq<char>, after: int) -> Option<int>;

/// Relies on `cron_parser::parse`: deterministically returns the first
/// occurrence of a five-field cron expression strictly after the given
/// instant, or an error when the expression is invalid or no occurrence
/// is representable. All of its search arithmetic is checked, so it does
/// not panic for any instant in the supported range.
#[verifier::external_body]
fn cron_next(expr: &str, after: i64) -> (r: Option<i64>)
    requires
        valid_instant(after as int),
    ensures
        r matches Some(t) ==> cron_next_of(expr@, after as int) == Some(t as int) && after < t,
        r is None ==> cron_next_of(expr@, after as int) is None,
{
    match chrono::DateTime::<chrono::Utc>::from_timestamp(after, 0) {
        Some(dt) => match cron_parser::parse(expr, &dt) {
            Ok(next) => Some(next.timestamp()),
            Err(_) => None,
        },
        None => None,
    }
}

/// One day, in seconds: the amount a period-end occurrence is moved back,
/// because a month, quarter or year ends one day before the next
/// period's start occurrence.
pub const PERIOD_END_ADJUSTMENT: i64 = 86400;

/// The occurrence an evaluation judges: the computed occurrence itself,
/// or one day earlier when the occurrence marks the end of the period.
pub open spec fn spec_adjusted(next: int, marks_period_end: bool) -> int {
    if marks_period_end {
        next - PERIOD_END_ADJUSTMENT
    } else {
        next
    }
}

/// Whether an adjusted occurrence is close enough to `now` to count:
/// strictly within the lag window.
pub open spec fn spec_matched(now: int, lag_window_seconds: int, adjusted: int) -> bool {
    abs(adjusted - now) < lag_window_seconds
}

/// The jittered instant handed to the occurrence search: a quarter of the
/// lag window before `now`, computed once per run and shared by every
/// period evaluation.
pub open spec fn spec_comparison_instant(now: int, lag_window_seconds: int) -> int {
    now - lag_window_seconds / 4
}

/// Whether one period definition `(expression, tag, marks period end)`
/// earns its tag: its next occurrence after the comparison instant
/// exists, and, adjusted for period end, lies strictly within the lag
/// window around `now`. A period whose expression is rejected never
/// earns its tag and raises no error.
pub open spec fn spec_period_tagged(
    now: int,
    lag_window_seconds: int,
    comparison: int,
    period: (String, Tag, bool),
) -> bool {
    match cron_next_of(period.0@, comparison) {
        Some(next) => spec_matched(now, lag_window_seconds, spec_adjusted(next, period.2)),
        None => false,
    }
}

/// The matching test of one evaluation run, as a predicate over period
/// definitions.
pub open spec fn spec_tagged_pred(now: int, lag_window_seconds: int, comparison: int) -> spec_fn(
    (String, Tag, bool),
) -> bool {
    |p: (String, Tag, bool)| spec_period_tagged(now, lag_window_seconds, comparison, p)
}

/// The tag of a period definition.
pub open spec fn spec_tag_of() -> spec_fn((String, Tag, bool)) -> Tag {
    |p: (String, Tag, bool)| p.1
}

/// The key/value character pair a tag stands for.
pub open spec fn spec_pair_of() -> spec_fn(Tag) -> (Seq<char>, Seq<char>) {
    |t: Tag| (t.key@, t.value@)
}

/// The tags of the periods that match, in catalog order: the input order
/// filtered, never reordered.
pub open spec fn spec_matched_tags(
    now: int,
    lag_window_seconds: int,
    comparison: int,
    periods: Seq<(String, Tag, bool)>,
) -> Seq<Tag> {
    periods.filter(spec_tagged_pred(now, lag_window_seconds, comparison)).map_values(spec_tag_of())
}

/// The key/value character pairs of a tag sequence.
pub open spec fn spec_tag_pairs(tags: Seq<Tag>) -> Seq<(Seq<char>, Seq<char>)> {
    tags.map_values(spec_pair_of())
}

/// Extending the judged periods by one extends the matched tags by that
/// period's tag exactly when it matches.
proof fn lemma_matched_tags_push(
    now: int,
    lag_window_seconds: int,
    comparison: int,
    periods: Seq<(String, Tag, bool)>,
    p: (String, Tag, bool),
)
    ensures
        spec_matched_tags(now, lag_window_seconds, comparison, periods.push(p))
            == if spec_period_tagged(now, lag_window_seconds, comparison, p) {
            spec_matched_tags(now, lag_window_seconds, comparison, periods).push(p.1)
        } else {
            spec_matched_tags(now, lag_window_seconds, comparison, periods)
        },
{
    let pred = spec_tagged_pred(now, lag_window_seconds, comparison);
    periods.lemma_filter_push(p, pred);
    if pred(p) {
        periods.filter(pred).lemma_push_map_commute(spec_tag_of(), p);
    }
}

/// The pairs of a tag sequence extended by one tag.
pub proof fn lemma_tag_pairs_push(tags: Seq<Tag>, t: Tag)
    ensures
        spec_tag_pairs(tags.push(t)) == spec_tag_pairs(tags).push((t.key@, t.value@)),
{
    tags.lemma_push_map_commute(spec_pair_of(), t);
}

/// An ordered tag set: the baseline tag first, then zero or more period
/// tags in catalog order. Serializes to the wire document.
#[derive(Debug, Clone, PartialEq, Eq)]
pub struct TagSet {
    pub tag_set: Vec<Tag>,
}

/// Computes the tag set for `now`: the baseline tag, then the tag of
/// every period whose next occurrence after the jittered comparison
/// instant, adjusted for period end, lies strictly within the lag window
/// around `now` — judged against `now` itself, not the jittered instant.
/// Fails exactly when the jitter adjustment leaves the supported instant
/// range.
pub fn evaluate(now: i64, lag_window_seconds: i64, periods: &Vec<(String, Tag, bool)>) -> (r:
    Result<TagSet, EvaluateError>)
    requires
        valid_instant(now as int),
        lag_window_seconds >= 0,
    ensures
        r is Ok <==> valid_instant(
            spec_comparison_instant(now as int, lag_window_seconds as int),
        ),
        r matches Err(e) ==> e == EvaluateError::ClockAdjustment,
        r matches Ok(ts) ==> {
            let comparison = spec_comparison_instant(now as int, lag_window_seconds as int);
            spec_tag_pairs(ts.tag_set@) == seq![("standard"@, "1"@)] + spec_tag_pairs(
                spec_matched_tags(now as int, lag_window_seconds as int, comparison, periods@),
            )
        },
        r matches Ok(ts) ==> ts.tag_set@.len() >= 1 && ts.tag_set@[0].key@ == "standard"@
            && ts.tag_set@[0].value@ == "1"@,
        r matches Ok(ts) ==> 1 <= ts.tag_set@.len() <= 1 + periods@.len(),
{
    let jitter = lag_window_seconds / 4;
    if jitter > now {
        return Err(EvaluateError::ClockAdjustment);
    }
    let comparison = now - jitter;
    let ghost nowi = now as int;
    let ghost lagi = lag_window_seconds as int;
    let ghost cmp = comparison as int;

    let mut tags: Vec<Tag> = Vec::new();
    tags.push(baseline_tag());

    let mut i: usize = 0;
    proof {
        reveal_with_fuel(Seq::filter, 1);
        assert(periods@.take(0) =~= Seq::<(String, Tag, bool)>::empty());
        assert(spec_tag_pairs(tags@) =~= seq![("standard"@, "1"@)] + spec_tag_pairs(
            spec_matched_tags(nowi, lagi, cmp, periods@.take(0)),
        ));
    }
    while i < periods.len()
        invariant
            i <= periods@.len(),
            0 <= comparison <= now <= MAX_INSTANT,
            cmp == comparison as int,
            nowi == now as int,
            lagi == lag_window_seconds as int,
            cmp == spec_comparison_instant(nowi, lagi),
            spec_tag_pairs(tags@) == seq![("standard"@, "1"@)] + spec_tag_pairs(
                spec_matched_tags(nowi, lagi, cmp, periods@.take(i as int)),
            ),
            tags@.len() >= 1 && tags@[0].key@ == "standard"@ && tags@[0].value@ == "1"@,
        decreases periods@.len() - i,
    {
        let period = &periods[i];
        let ghost p = periods@[i as int];
        let ghost snap = tags@;
        let ghost tagged = spec_period_tagged(nowi, lagi, cmp, p);
        if let Some(next) = cron_next(period.0.as_str(), comparison) {
            let adjusted = if period.2 {
                next - PERIOD_END_ADJUSTMENT
            } else {
                next
            };
            let difference = adjusted - now;
            if -lag_window_seconds < difference && difference < lag_window_seconds {
                tags.push(period.1.duplicate());
                proof {
                    assert(tagged);
                }
            } else {
                proof {
                    assert(!tagged);
                }
            }
        } else {
            proof {
                assert(!tagged);
            }
        }
        proof {
            assert(periods@.take(i + 1) =~= periods@.take(i as int).push(p));
            lemma_matched_tags_push(nowi, lagi, cmp, periods@.take(i as int), p);
            let before = spec_matched_tags(nowi, lagi, cmp, periods@.take(i as int));
            if tagged {
                assert(spec_matched_tags(nowi, lagi, cmp, periods@.take(i + 1)) == before.push(
                    p.1,
                ));
                lemma_tag_pairs_push(before, p.1);
                assert(spec_tag_pairs(tags@) =~= spec_tag_pairs(snap).push((p.1.key@, p.1.value@)));
                assert(spec_tag_pairs(tags@) =~= seq![("standard"@, "1"@)] + spec_tag_pairs(
                    before,
                ).push((p.1.key@, p.1.value@)));
            } else {
                assert(tags@ == snap);
            }
            assert(spec_tag_pairs(tags@) =~= seq![("standard"@, "1"@)] + spec_tag_pairs(
                spec_matched_tags(nowi, lagi, cmp, periods@.take(i + 1)),
            ));
        }
        i += 1;
    }
    proof {
        assert(periods@.take(periods@.len() as int) =~= periods@);
        periods@.lemma_filter_len(spec_tagged_pred(nowi, lagi, cmp));
        assert(spec_tag_pairs(tags@).len() == tags@.len());
        assert(spec_matched_tags(nowi, lagi, cmp, periods@).len() <= periods@.len());
    }
    Ok(TagSet { tag_set: tags })
}

/// The output order of a five-period catalog is fixed: the matched tags
/// are exactly the catalog's tags, each present when its period matches
/// and absent when it does not, in the catalog's own order — never
/// reordered. With the baseline tag prepended by the evaluator, the
/// output is always: standard, then the matching ones of nightly,
/// weekly, monthly, quarterly, yearly.
pub proof fn lemma_catalog_order(
    now: int,
    lag_window_seconds: int,
    comparison: int,
    periods: Seq<(String, Tag, bool)>,
)
    requires
        periods.len() == 5,
    ensures
        ({
            let pick = |i: int|
                if spec_period_tagged(now, lag_window_seconds, comparison, periods[i]) {
                    seq![periods[i].1]
                } else {
                    Seq::<Tag>::empty()
                };
            spec_matched_tags(now, lag_window_seconds, comparison, periods) == pick(0) + pick(1)
                + pick(2) + pick(3) + pick(4)
        }),
{
    let pick = |i: int|
        if spec_period_tagged(now, lag_window_seconds, comparison, periods[i]) {
            seq![periods[i].1]
        } else {
            Seq::<Tag>::empty()
        };
    let p0 = periods.take(0);
    let p1 = periods.take(1);
    let p2 = periods.take(2);
    let p3 = periods.take(3);
    let p4 = periods.take(4);
    assert(p1 =~= p0.push(periods[0]));
    assert(p2 =~= p1.push(periods[1]));
    assert(p3 =~= p2.push(periods[2]));
    assert(p4 =~= p3.push(periods[3]));
    assert(periods =~= p4.push(periods[4]));
    reveal_with_fuel(Seq::filter, 1);
    assert(p0 =~= Seq::<(String, Tag, bool)>::empty());
    assert(spec_matched_tags(now, lag_window_seconds, comparison, p0) =~= Seq::<Tag>::empty());
    lemma_matched_tags_push(now, lag_window_seconds, comparison, p0, periods[0]);
    lemma_matched_tags_push(now, lag_window_seconds, comparison, p1, periods[1]);
    lemma_matched_tags_push(now, lag_window_seconds, comparison, p2, periods[2]);
    lemma_matched_tags_push(now, lag_window_seconds, comparison, p3, periods[3]);
    lemma_matched_tags_push(now, lag_window_seconds, comparison, p4, periods[4]);
    assert(spec_matched_tags(now, lag_window_seconds, comparison, periods) =~= pick(0) + pick(1)
        + pick(2) + pick(3) + pick(4));
}

/// For every positive lag window, a period whose adjusted occurrence
/// falls exactly on `now` is matched: the difference is zero, strictly
/// below the window.
pub proof fn lemma_exact_occurrence_matches(now: int, lag_window_seconds: int, adjusted: int)
    requires
        lag_window_seconds > 0,
        adjusted == now,
    ensures
        spec_matched(now, lag_window_seconds, adjusted),
{
}

/// A period is never matched once the difference reaches the lag window:
/// the boundary at exactly the window is excluded by the strict
/// comparison.
pub proof fn lemma_window_boundary_excluded(now: int, lag_window_seconds: int, adjusted: int)
    requires
        abs(adjusted - now) >= lag_window_seconds,
    ensures
        !spec_matched(now, lag_window_seconds, adjusted),
{
}

} // verus!
