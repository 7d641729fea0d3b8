use vstd::arithmetic::power2::{lemma2_to64, lemma_pow2_strictly_increases, lemma_pow2_unfold, pow2};
use vstd::prelude::*;

use crate::task::TaskState;

verus! {

/// All possible options for retaining tasks in the store after their execution.
///
/// The default mode is [`RetentionMode::RemoveDone`].
#[derive(Copy, Clone, Eq, PartialEq, Debug, Hash, Structural)]
pub enum RetentionMode {
    /// Keep all tasks.
    KeepAll,
    /// Remove all finished tasks independently of their final execution state.
    RemoveAll,
    /// Remove only successfully finished tasks.
    RemoveDone,
}

impl Default for RetentionMode {
    fn default() -> (r: Self)
        ensures
            r == RetentionMode::RemoveDone,
    {
        RetentionMode::RemoveDone
    }
}

impl RetentionMode {
    pub open spec fn spec_removes(&self, state: TaskState) -> bool {
        match *self {
            RetentionMode::KeepAll => false,
            RetentionMode::RemoveAll => state.is_terminal(),
            RetentionMode::RemoveDone => state == TaskState::Done,
        }
    }

    /// Whether a purge under this mode deletes a row in `state`: never under
    /// `KeepAll`, every finished row under `RemoveAll`, and only rows that
    /// finished successfully under `RemoveDone`.
    #[verifier::when_used_as_spec(spec_removes)]
    pub fn removes(&self, state: TaskState) -> (r: bool)
        ensures
            r == self.spec_removes(state),
    {
        match self {
            RetentionMode::KeepAll => false,
            RetentionMode::RemoveAll => state.is_terminal(),
            RetentionMode::RemoveDone => state == TaskState::Done,
        }
    }
}

/// All possible options for backoff between task retries.
#[derive(Copy, Clone, Eq, PartialEq, Debug, Hash, Structural)]
pub enum BackoffMode {
    /// No backoff, retry immediately.
    NoBackoff,
    /// Exponential backoff.
    ExponentialBackoff,
}

impl Default for BackoffMode {
    fn default() -> (r: Self)
        ensures
            r == BackoffMode::ExponentialBackoff,
    {
        BackoffMode::ExponentialBackoff
    }
}

/// The exponent used for attempt `a`: `a + 1`, saturating at `i32::MAX`, read as
/// an unsigned 32-bit number (so a negative sum wraps to a large exponent).
pub open spec fn backoff_exponent(a: int) -> nat {
    if a >= i32::MAX {
        i32::MAX as nat
    } else if a + 1 >= 0 {
        (a + 1) as nat
    } else {
        (a + 1 + 0x1_0000_0000) as nat
    }
}

/// `x` clamped to the largest `u64`.
pub open spec fn clamp_u64(x: nat) -> nat {
    if x > u64::MAX {
        u64::MAX as nat
    } else {
        x
    }
}

/// The delay, in seconds, before attempt `a` under `mode`.
pub open spec fn backoff_delay_secs(mode: BackoffMode, a: int) -> nat {
    match mode {
        BackoffMode::NoBackoff => 0,
        BackoffMode::ExponentialBackoff => clamp_u64(pow2(backoff_exponent(a))),
    }
}

/// The number of whole seconds in a duration.
pub uninterp spec fn duration_secs(d: core::time::Duration) -> u64;

/// Relies on `Duration::from_secs`: the duration holds exactly `secs` seconds.
pub assume_specification[ core::time::Duration::from_secs ](secs: u64) -> (r: core::time::Duration)
    ensures
        duration_secs(r) == secs,
;

/// `2^e`, for an exponent that keeps it within `u64`.
pub fn power_of_two(e: u32) -> (r: u64)
    requires
        e < 64,
    ensures
        r == pow2(e as nat),
{
    let mut r: u64 = 1;
    let mut i: u32 = 0;
    proof {
        lemma2_to64();
    }
    while i < e
        invariant
            i <= e < 64,
            r as nat == pow2(i as nat),
        decreases e - i,
    {
        proof {
            lemma_pow2_unfold((i + 1) as nat);
            lemma2_to64();
            if i + 1 < 64 {
                lemma_pow2_strictly_increases((i + 1) as nat, 64);
            }
        }
        r = r * 2;
        i = i + 1;
    }
    r
}

impl BackoffMode {
    /// The delay in seconds before the task may run again after attempt `attampt`:
    /// zero without backoff, else `2^(attampt + 1)` clamped to `u64::MAX`.
    pub fn delay_secs(&self, attampt: i32) -> (r: u64)
        ensures
            r == backoff_delay_secs(*self, attampt as int),
    {
        match self {
            BackoffMode::NoBackoff => 0,
            BackoffMode::ExponentialBackoff => {
                let e: u32 = if attampt == i32::MAX {
                    i32::MAX as u32
                } else if attampt >= -1 {
                    (attampt + 1) as u32
                } else {
                    (attampt as i64 + 1 + 0x1_0000_0000i64) as u32
                };
                assert(e as nat == backoff_exponent(attampt as int));
                if e >= 64 {
                    proof {
                        lemma2_to64();
                        if e > 64 {
                            lemma_pow2_strictly_increases(64, e as nat);
                        }
                    }
                    u64::MAX
                } else {
                    power_of_two(e)
                }
            },
        }
    }

    /// The delay before the task may run again after attempt `attampt`
    /// (see [`BackoffMode::delay_secs`]).
    pub fn next_attampt(&self, attampt: i32) -> (r: core::time::Duration)
        ensures
            duration_secs(r) == backoff_delay_secs(*self, attampt as int),
    {
        core::time::Duration::from_secs(self.delay_secs(attampt))
    }
}

} // verus!
