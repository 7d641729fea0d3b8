//! A persistent background-task queue: tasks are stored, claimed one worker at a
//! time, executed, and finalized under retry, backoff, scheduling and retention
//! policies.
use vstd::prelude::*;

pub mod laws;
pub mod policy;
pub mod runnable;
pub mod schedule;
pub mod task;
pub mod worker;

pub use policy::{BackoffMode, RetentionMode};
pub use runnable::{AsyncRunnable, COMMON_TYPE, RETRIES_NUMBER};
pub use schedule::next_run_at;
pub use task::{NewTask, Scheduled, StoreError, Task, TaskId, TaskState, TaskStore};
pub use worker::{RunOutcome, Worker, WorkerAction, WorkerEvent, WorkerState};

verus! {

} // verus!
