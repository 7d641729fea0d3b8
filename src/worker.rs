use vstd::prelude::*;

use crate::schedule::{next_run_at, spec_next_run_at};
use crate::task::{
    after_failure, finished, has_running, running_at, successor, StoreError, TaskId, TaskState, TaskStore,
};

verus! {

/// How the execution of a claimed task ended.
#[derive(Copy, Clone, Eq, PartialEq, Debug, Structural)]
pub enum RunOutcome {
    /// The task ran to completion.
    Completed,
    /// The task returned an application error.
    Errored,
    /// The task aborted abnormally (a panic caught at the worker boundary).
    Aborted,
}

/// What recording the outcome of the run of row `id` at `now` does, with
/// `next_occurrence` the due time of a periodic row's successor.
pub open spec fn finish_effect(
    before: TaskStore,
    after: TaskStore,
    id: TaskId,
    outcome: RunOutcome,
    next_occurrence: Option<u64>,
    now: u64,
    r: Result<TaskState, StoreError>,
) -> bool {
    &&& after.wf()
    &&& !has_running(before.rows(), id) ==> r == Err::<TaskState, StoreError>(StoreError::TaskNotFound)
    &&& r is Err ==> after.rows() == before.rows() && after.next_id() == before.next_id()
    &&& outcome == RunOutcome::Completed && next_occurrence is None && has_running(before.rows(), id) ==> {
        &&& r == Ok::<TaskState, StoreError>(TaskState::Done)
        &&& exists|i: int|
            running_at(before.rows(), i, id) && after.rows() == before.rows().update(
                i,
                finished(before.rows()[i], now),
            )
    }
    &&& outcome == RunOutcome::Completed && next_occurrence is Some && has_running(before.rows(), id) ==> {
        &&& before.next_id() == u64::MAX ==> r == Err::<TaskState, StoreError>(StoreError::IdsExhausted)
        &&& before.next_id() < u64::MAX ==> {
            &&& r == Ok::<TaskState, StoreError>(TaskState::Done)
            &&& after.next_id() == before.next_id() + 1
            &&& exists|i: int|
                {
                    &&& running_at(before.rows(), i, id)
                    &&& after.rows() == before.rows().update(i, finished(before.rows()[i], now)).push(
                        successor(before.rows()[i], before.next_id(), next_occurrence->0, now),
                    )
                }
        }
    }
    &&& outcome != RunOutcome::Completed && has_running(before.rows(), id) ==> exists|i: int|
        {
            &&& running_at(before.rows(), i, id)
            &&& after.rows() == before.rows().update(i, after_failure(before.rows()[i], now))
            &&& r == Ok::<TaskState, StoreError>(after_failure(before.rows()[i], now).state)
        }
}

impl TaskStore {
    /// Records how the run of the running row `id` ended at `now`. A completed
    /// periodic run (`next_occurrence` holds its schedule's next occurrence)
    /// finishes the row and stores its successor; any other completed run
    /// finishes the row; an error or an abort counts as one failure. Returns the
    /// row's new state.
    pub fn finish_run(&mut self, id: TaskId, outcome: RunOutcome, next_occurrence: Option<u64>, now: u64) -> (r: Result<
        TaskState,
        StoreError,
    >)
        requires
            old(self).wf(),
        ensures
            finish_effect(*old(self), *final(self), id, outcome, next_occurrence, now, r),
    {
        match outcome {
            RunOutcome::Completed => match next_occurrence {
                Some(next_at) => match self.reschedule_periodic(id, next_at, now) {
                    Ok(_) => Ok(TaskState::Done),
                    Err(e) => Err(e),
                },
                None => match self.report_success(id, now) {
                    Ok(()) => Ok(TaskState::Done),
                    Err(e) => Err(e),
                },
            },
            RunOutcome::Errored | RunOutcome::Aborted => self.report_failure(id, now),
        }
    }

    /// Records how the run of the running row `id` ended at `now`, as
    /// [`TaskStore::finish_run`] does, where a completed periodic row's successor
    /// is due at the next occurrence of the row's own cron expression.
    pub fn complete(&mut self, id: TaskId, outcome: RunOutcome, now: u64) -> (r: Result<TaskState, StoreError>)
        requires
            old(self).wf(),
        ensures
            !has_running(old(self).rows(), id) ==> r == Err::<TaskState, StoreError>(StoreError::TaskNotFound)
                && *final(self) == *old(self),
            forall|i: int|
                running_at(old(self).rows(), i, id) ==> finish_effect(
                    *old(self),
                    *final(self),
                    id,
                    outcome,
                    if outcome == RunOutcome::Completed {
                        spec_next_run_at(old(self).rows()[i].schedule, now)
                    } else {
                        None
                    },
                    now,
                    r,
                ),
    {
        match self.find_running(id) {
            None => Err(StoreError::TaskNotFound),
            Some(i) => {
                let next = if outcome == RunOutcome::Completed {
                    next_run_at(&self.tasks()[i].schedule, now)
                } else {
                    None
                };
                let r = self.finish_run(id, outcome, next, now);
                proof {
                    assert forall|j: int| running_at(old(self).rows(), j, id) implies j == i as int by {
                        if j != i as int {
                            assert(old(self).rows()[j].id != old(self).rows()[i as int].id);
                        }
                    }
                }
                r
            },
        }
    }
}

/// Where a worker is in its loop.
#[derive(Copy, Clone, Eq, PartialEq, Debug, Structural)]
pub enum WorkerState {
    /// Between tasks; the next step claims one.
    Idle,
    /// Running the claimed task with this id.
    Executing(TaskId),
    /// Shut down; it claims nothing more.
    Stopped,
}

/// What the worker learns after the action it was given.
#[derive(Copy, Clone, Eq, PartialEq, Debug, Structural)]
pub enum WorkerEvent {
    /// A claim returned the task with the given id, or nothing eligible.
    Polled(Option<TaskId>),
    /// The store could not be reached.
    StoreUnavailable,
    /// The outcome of the running task has been reported to the store.
    RunReported,
}

/// What the worker does next.
#[derive(Copy, Clone, Eq, PartialEq, Debug, Structural)]
pub enum WorkerAction {
    /// Claim the next eligible task.
    ClaimNext,
    /// Wait one poll interval, then claim.
    SleepThenClaim,
    /// Execute the claimed task and report its outcome.
    Execute(TaskId),
    /// Leave the loop.
    Halt,
}

/// The worker's transition. A claimed task is always executed, shutdown or
/// not; shutdown is honoured only at a loop boundary, before the next claim.
/// An idle worker that finds nothing, or cannot reach the store, sleeps before
/// polling again; once a run is reported, whatever its outcome, the worker
/// claims the next task. A worker that cannot reach the store while it holds a
/// task backs off to the claim loop and leaves the task as it is. Any other
/// event leaves the state as it is and repeats its action.
pub open spec fn worker_step(state: WorkerState, event: WorkerEvent, shutdown: bool) -> (WorkerState, WorkerAction) {
    match state {
        WorkerState::Stopped => (WorkerState::Stopped, WorkerAction::Halt),
        WorkerState::Idle => match event {
            WorkerEvent::Polled(Some(id)) => (WorkerState::Executing(id), WorkerAction::Execute(id)),
            _ => if shutdown {
                (WorkerState::Stopped, WorkerAction::Halt)
            } else {
                match event {
                    WorkerEvent::RunReported => (WorkerState::Idle, WorkerAction::ClaimNext),
                    _ => (WorkerState::Idle, WorkerAction::SleepThenClaim),
                }
            },
        },
        WorkerState::Executing(id) => match event {
            WorkerEvent::RunReported => if shutdown {
                (WorkerState::Stopped, WorkerAction::Halt)
            } else {
                (WorkerState::Idle, WorkerAction::ClaimNext)
            },
            WorkerEvent::StoreUnavailable => if shutdown {
                (WorkerState::Stopped, WorkerAction::Halt)
            } else {
                (WorkerState::Idle, WorkerAction::SleepThenClaim)
            },
            WorkerEvent::Polled(_) => (WorkerState::Executing(id), WorkerAction::Execute(id)),
        },
    }
}

/// A single execution unit's decisions; the caller performs each action and
/// hands back what came of it.
pub struct Worker {
    pub state: WorkerState,
}

impl Worker {
    /// A fresh worker, idle: its first action is to claim.
    pub fn new() -> (r: Worker)
        ensures
            r.state == WorkerState::Idle,
    {
        Worker { state: WorkerState::Idle }
    }

    /// Moves the worker on by `event`, with `shutdown` telling whether the pool
    /// asked it to stop, and returns the next action.
    pub fn on_event(&mut self, event: WorkerEvent, shutdown: bool) -> (r: WorkerAction)
        ensures
            (final(self).state, r) == worker_step(old(self).state, event, shutdown),
    {
        let (s, a) = match self.state {
            WorkerState::Stopped => (WorkerState::Stopped, WorkerAction::Halt),
            WorkerState::Idle => match event {
                WorkerEvent::Polled(Some(id)) => (WorkerState::Executing(id), WorkerAction::Execute(id)),
                _ => if shutdown {
                    (WorkerState::Stopped, WorkerAction::Halt)
                } else {
                    match event {
                        WorkerEvent::RunReported => (WorkerState::Idle, WorkerAction::ClaimNext),
                        _ => (WorkerState::Idle, WorkerAction::SleepThenClaim),
                    }
                },
            },
            WorkerState::Executing(id) => match event {
                WorkerEvent::RunReported => if shutdown {
                    (WorkerState::Stopped, WorkerAction::Halt)
                } else {
                    (WorkerState::Idle, WorkerAction::ClaimNext)
                },
                WorkerEvent::StoreUnavailable => if shutdown {
                    (WorkerState::Stopped, WorkerAction::Halt)
                } else {
                    (WorkerState::Idle, WorkerAction::SleepThenClaim)
                },
                WorkerEvent::Polled(_) => (WorkerState::Executing(id), WorkerAction::Execute(id)),
            },
        };
        self.state = s;
        a
    }
}

} // verus!
