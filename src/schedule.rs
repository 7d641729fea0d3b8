use vstd::prelude::*;

use crate::task::Scheduled;

verus! {

/// The latest timestamp (about the year 255000) that a cron expression is
/// evaluated after; the calendar in use ends shortly beyond it.
pub const MAX_TIMESTAMP: u64 = 8_000_000_000_000;

/// The first occurrence of cron expression `pattern` (UTC) strictly after
/// timestamp `after`, or none when the expression does not parse or has no
/// later occurrence representable as a timestamp.
pub uninterp spec fn cron_next(pattern: Seq<char>, after: u64) -> Option<u64>;

/// Relies on `cron::Schedule::from_str` and `Schedule::after(..).next()`: the
/// next occurrence depends on the expression and the instant alone (in UTC).
/// The search starts one second after `after` with chrono's panicking `+`, so
/// `after` stays below the calendar's last instant.
#[verifier::external_body]
pub(crate) fn cron_next_after(pattern: &String, after: u64) -> (r: Option<u64>)
    requires
        after <= MAX_TIMESTAMP,
    ensures
        r == cron_next(pattern@, after),
{
    let schedule = pattern.parse::<cron::Schedule>().ok()?;
    let start = chrono::DateTime::<chrono::Utc>::from_timestamp(i64::try_from(after).ok()?, 0)?;
    let next = schedule.after(&start).next()?;
    u64::try_from(next.timestamp()).ok()
}

/// The spec of [`next_run_at`].
pub open spec fn spec_next_run_at(schedule: Option<Scheduled>, now: u64) -> Option<u64> {
    match schedule {
        Some(Scheduled::CronPattern(p)) => if now <= MAX_TIMESTAMP {
            cron_next(p@, now)
        } else {
            None
        },
        _ => None,
    }
}

/// When a periodic task with `schedule` next runs after `now`: the cron
/// expression's next occurrence; none for a schedule that is not periodic, and
/// none past the latest timestamp that cron expressions are evaluated after.
pub fn next_run_at(schedule: &Option<Scheduled>, now: u64) -> (r: Option<u64>)
    ensures
        r == spec_next_run_at(*schedule, now),
{
    match schedule {
        Some(Scheduled::CronPattern(p)) => if now <= MAX_TIMESTAMP {
            cron_next_after(p, now)
        } else {
            None
        },
        _ => None,
    }
}

} // verus!
