//! The period catalog: the five static period definitions (nightly,
//! weekly, monthly, quarterly, yearly), each a cron-style schedule
//! expression, the tag it grants, and whether the computed occurrence
//! marks the end of the covered period rather than its start.

use vstd::prelude::*;

use crate::tags::Tag;
use crate::text::{append_decimal_i64, push_char, spec_decimal};

verus! {

/// A five-field cron expression `"{minute} {hour}{tail}"`, where the tail
/// supplies the day-of-month, month and day-of-week fields.
pub open spec fn spec_schedule_expr(minute: int, hour: int, tail: Seq<char>) -> Seq<char> {
    spec_decimal(minute) + seq![' '] + spec_decimal(hour) + tail
}

fn build_expr(minute: i64, hour: i64, tail: &str) -> (r: String)
    ensures
        r@ == spec_schedule_expr(minute as int, hour as int, tail@),
{
    let mut out = String::new();
    append_decimal_i64(minute, &mut out);
    push_char(&mut out, ' ');
    append_decimal_i64(hour, &mut out);
    let mut out = out;
    out.append(tail);
    proof {
        assert(out@ =~= spec_schedule_expr(minute as int, hour as int, tail@));
    }
    out
}

/// The matching hour of the day: the every-N-hours base plus the
/// day offset, exactly as both are configured.
pub open spec fn spec_match_hour(day_offset_in_hours: int, every_n_hours: int) -> int {
    every_n_hours + day_offset_in_hours
}

/// Builds the five period definitions from the configured offsets, in
/// catalog order: nightly, weekly, monthly, quarterly, yearly. Each entry
/// is `(schedule expression, tag, marks period end)`. The monthly,
/// quarterly and yearly occurrences mark the end of the covered period,
/// so their computed occurrence is later moved back by one day.
///
/// Offset values are not range-checked: out-of-range offsets yield
/// expressions the schedule evaluator rejects, and the affected period is
/// then skipped.
pub fn periods(day_offset_in_hours: i64, minutes_offset_from_hour: i64, every_n_hours: i64) -> (r:
    Vec<(String, Tag, bool)>)
    requires
        i64::MIN <= every_n_hours + day_offset_in_hours <= i64::MAX,
    ensures
        r@.len() == 5,
        ({
            let m = minutes_offset_from_hour as int;
            let h = spec_match_hour(day_offset_in_hours as int, every_n_hours as int);
            &&& r@[0].0@ == spec_schedule_expr(m, h, " * * *"@)
            &&& r@[1].0@ == spec_schedule_expr(m, h, " * * 6"@)
            &&& r@[2].0@ == spec_schedule_expr(m, h, " 1 * *"@)
            &&& r@[3].0@ == spec_schedule_expr(m, h, " 1 */3 *"@)
            &&& r@[4].0@ == spec_schedule_expr(m, h, " 1 1 *"@)
        }),
        r@[0].1.key@ == "nightly"@ && !r@[0].2,
        r@[1].1.key@ == "weekly"@ && !r@[1].2,
        r@[2].1.key@ == "monthly"@ && r@[2].2,
        r@[3].1.key@ == "quarterly"@ && r@[3].2,
        r@[4].1.key@ == "yearly"@ && r@[4].2,
        forall|i: int| 0 <= i < 5 ==> (#[trigger] r@[i].1).value@ == "1"@,
{
    let hour = every_n_hours + day_offset_in_hours;
    let mut r: Vec<(String, Tag, bool)> = Vec::new();
    r.push((build_expr(minutes_offset_from_hour, hour, " * * *"), Tag::new("nightly", "1"), false));
    r.push((build_expr(minutes_offset_from_hour, hour, " * * 6"), Tag::new("weekly", "1"), false));
    r.push((build_expr(minutes_offset_from_hour, hour, " 1 * *"), Tag::new("monthly", "1"), true));
    r.push((
        build_expr(minutes_offset_from_hour, hour, " 1 */3 *"),
        Tag::new("quarterly", "1"),
        true,
    ));
    r.push((build_expr(minutes_offset_from_hour, hour, " 1 1 *"), Tag::new("yearly", "1"), true));
    r
}

} // verus!
