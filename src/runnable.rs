use vstd::arithmetic::power2::{lemma2_to64, lemma_pow2_strictly_increases, pow2};
use vstd::prelude::*;

use crate::policy::{power_of_two, BackoffMode};
use crate::task::Scheduled;

verus! {

/// The type tag of tasks that do not define their own.
pub const COMMON_TYPE: &'static str = "common";

/// How many failures of a task are retried unless it says otherwise.
pub const RETRIES_NUMBER: i32 = 20;

/// `2^attempt`, the default backoff factor.
pub fn exponential_backoff(attempt: u32) -> (r: u32)
    requires
        attempt < 32,
    ensures
        r == pow2(attempt as nat),
{
    proof {
        lemma2_to64();
        if attempt < 31 {
            lemma_pow2_strictly_increases(attempt as nat, 31);
        }
    }
    power_of_two(attempt) as u32
}

/// The policy side of a unit of background work. Implement it, together with the
/// work itself, to run custom tasks.
pub trait AsyncRunnable: Send + Sync {
    /// The type of the task; `common` by default.
    fn task_type(&self) -> (r: String)
        default_ensures
            r@ == COMMON_TYPE@,
    {
        COMMON_TYPE.to_owned()
    }

    /// If true, no other unfinished task with the same type and payload is
    /// stored. False by default.
    fn uniq(&self) -> (r: bool)
        default_ensures
            !r,
    {
        false
    }

    /// Whether the task is periodic (a cron pattern, UTC) or runs once at a given
    /// time. `None` by default: it runs as soon as it is claimed.
    fn cron(&self) -> (r: Option<Scheduled>)
        default_ensures
            r is None,
    {
        None
    }

    /// How many failures are retried; 20 by default.
    fn max_retries(&self) -> (r: i32)
        default_ensures
            r == RETRIES_NUMBER,
    {
        RETRIES_NUMBER
    }

    /// The delay policy between retries; exponential by default.
    fn backoff_mode(&self) -> (r: BackoffMode)
        default_ensures
            r == BackoffMode::ExponentialBackoff,
    {
        BackoffMode::ExponentialBackoff
    }

    /// The backoff factor after `attempt` failures; `2^attempt` by default.
    fn backoff(&self, attempt: u32) -> (r: u32)
        requires
            attempt < 32,
        default_ensures
            r == pow2(attempt as nat),
    {
        exponential_backoff(attempt)
    }
}

} // verus!
