use vstd::prelude::*;
use vstd::seq_lib::group_filter_ensures;

use crate::policy::RetentionMode;
use crate::schedule::{cron_next, spec_next_run_at, MAX_TIMESTAMP};
use crate::task::{
    after_failure, blocks, claimed, eligible, finished, first_eligible, has_duplicate, has_running, kept_by, new_row,
    purged, running_at, successor, NewTask, Scheduled, StoreError, Task, TaskId, TaskState, TaskStore,
};
use crate::worker::{finish_effect, worker_step, RunOutcome, WorkerAction, WorkerEvent, WorkerState};

verus! {

/// Once a unique task is stored, inserting a unique task with the same type and
/// payload is refused while the stored one is unfinished: right after the first
/// insert, and in any later store that still holds that row unfinished. Any
/// unfinished equivalent row blocks it, unique or not.
pub proof fn lemma_unique_insert_refuses_duplicate(
    rows: Seq<Task>,
    i: int,
    first: NewTask,
    again: NewTask,
    id: TaskId,
    run_at: u64,
    now: u64,
)
    requires
        first.uniq,
        again.uniq,
        first.task_type@ == again.task_type@,
        first.payload@ == again.payload@,
    ensures
        has_duplicate(rows.push(new_row(first, id, run_at, now)), again),
        0 <= i < rows.len() && !rows[i].state.is_terminal() && rows[i].task_type@ == first.task_type@ && rows[i].payload@ == first.payload@ ==> has_duplicate(rows, again),
{
    let pushed = rows.push(new_row(first, id, run_at, now));
    assert(blocks(pushed[rows.len() as int], again.task_type@, again.payload@));
    if 0 <= i < rows.len() && !rows[i].state.is_terminal() && rows[i].task_type@ == first.task_type@
        && rows[i].payload@ == first.payload@ {
        assert(blocks(rows[i], again.task_type@, again.payload@));
    }
}

/// A claimed task cannot be claimed again: once the first eligible row has been
/// claimed, no row with its id is eligible, under any filter and at any time.
pub proof fn lemma_claim_is_exclusive(
    s: TaskStore,
    i: int,
    filter: Option<Vec<String>>,
    now: u64,
    later_filter: Option<Vec<String>>,
    later: u64,
)
    requires
        s.wf(),
        first_eligible(s.rows(), i, filter, now),
    ensures
        forall|j: int|
            0 <= j < s.rows().len() && eligible(
                #[trigger] s.rows().update(i, claimed(s.rows()[i], now))[j],
                later_filter,
                later,
            ) ==> s.rows().update(i, claimed(s.rows()[i], now))[j].id != s.rows()[i].id,
{
    let after = s.rows().update(i, claimed(s.rows()[i], now));
    assert forall|j: int|
        0 <= j < s.rows().len() && eligible(#[trigger] after[j], later_filter, later) implies after[j].id
        != s.rows()[i].id by {
        if j != i {
            assert(s.rows()[j].id != s.rows()[i].id);
        }
    }
}

/// The row after one cycle of being claimed and failing at `now`; a row that is
/// not `New` cannot be claimed and stays as it is.
pub open spec fn retry_cycle(t: Task, now: u64) -> Task {
    if t.state == TaskState::New {
        after_failure(claimed(t, now), now)
    } else {
        t
    }
}

/// The row after it has been claimed and has failed once at each of `times`.
pub open spec fn after_failures(t: Task, times: Seq<u64>) -> Task
    decreases times.len(),
{
    if times.len() == 0 {
        t
    } else {
        retry_cycle(after_failures(t, times.drop_last()), times.last())
    }
}

/// Each failure adds exactly one attempt while retries are left; once the
/// attempt count has reached `max_retries` the next failure dead-letters the
/// row, which is never retried afterwards.
pub proof fn lemma_failures_count_up_to_dead_letter(t: Task, times: Seq<u64>)
    requires
        t.state == TaskState::New,
        0 <= t.attempt <= t.max_retries,
    ensures
        t.attempt + times.len() <= t.max_retries ==> after_failures(t, times).state == TaskState::New
            && after_failures(t, times).attempt == t.attempt + times.len(),
        t.attempt + times.len() > t.max_retries ==> after_failures(t, times).state == TaskState::Failed
            && after_failures(t, times).attempt == t.max_retries,
        after_failures(t, times).max_retries == t.max_retries,
    decreases times.len(),
{
    if times.len() > 0 {
        let prev = times.drop_last();
        lemma_failures_count_up_to_dead_letter(t, prev);
        let p = after_failures(t, prev);
        assert(after_failures(t, times) == retry_cycle(p, times.last()));
        if p.state == TaskState::New {
            let c = claimed(p, times.last());
            assert(c.attempt == p.attempt && c.max_retries == p.max_retries);
            assert(p.max_retries == t.max_retries);
        }
    }
}

/// A dead-lettered row is never claimed again, and a failure moves a row either
/// back to `New` with one more attempt or to the terminal `Failed` state.
pub proof fn lemma_failure_step(t: Task, now: u64, filter: Option<Vec<String>>, later: u64)
    ensures
        t.attempt < t.max_retries ==> after_failure(t, now).state == TaskState::New && after_failure(t, now).attempt
            == t.attempt + 1,
        t.attempt >= t.max_retries ==> after_failure(t, now).state == TaskState::Failed && after_failure(t, now).attempt
            == t.attempt,
        t.state == TaskState::Failed ==> !eligible(t, filter, later) && retry_cycle(t, later) == t,
{
}

/// A purge under `mode` keeps exactly the rows that `mode` does not delete:
/// under `RemoveDone` every `Done` row goes and every dead-lettered row stays,
/// under `RemoveAll` both go, and under `KeepAll` nothing changes.
pub proof fn lemma_purge_retention(rows: Seq<Task>, mode: RetentionMode)
    ensures
        forall|t: Task| #[trigger] purged(rows, mode).contains(t) <==> rows.contains(t) && !mode.removes(t.state),
        mode == RetentionMode::RemoveDone ==> forall|t: Task|
            rows.contains(t) ==> (#[trigger] purged(rows, mode).contains(t) <==> t.state != TaskState::Done),
        mode == RetentionMode::RemoveAll ==> forall|t: Task|
            rows.contains(t) ==> (#[trigger] purged(rows, mode).contains(t) <==> !t.state.is_terminal()),
        mode == RetentionMode::KeepAll ==> purged(rows, mode) == rows,
{
    broadcast use group_filter_ensures;
    broadcast use Seq::lemma_filter_contains_rev;

    assert forall|t: Task| #[trigger] purged(rows, mode).contains(t) <==> rows.contains(t) && !mode.removes(t.state) by {
        if rows.contains(t) && !mode.removes(t.state) {
            let j = choose|j: int| 0 <= j < rows.len() && rows[j] == t;
            assert(kept_by(mode)(rows[j]));
        }
        if purged(rows, mode).contains(t) {
            let j = choose|j: int| 0 <= j < purged(rows, mode).len() && purged(rows, mode)[j] == t;
            assert(kept_by(mode)(purged(rows, mode)[j]));
        }
    }
    if mode == RetentionMode::KeepAll {
        lemma_keep_all_keeps(rows);
    }
}

proof fn lemma_keep_all_keeps(rows: Seq<Task>)
    ensures
        purged(rows, RetentionMode::KeepAll) == rows,
    decreases rows.len(),
{
    reveal_with_fuel(Seq::filter, 1);
    if rows.len() > 0 {
        lemma_keep_all_keeps(rows.drop_last());
        assert(kept_by(RetentionMode::KeepAll)(rows.last()));
        assert(rows.drop_last().push(rows.last()) == rows);
    }
}

/// Completing a periodic row stores exactly one new row, `New` and due at the
/// schedule's next occurrence, finishes the original as `Done`, and leaves every
/// other row as it was.
pub proof fn lemma_periodic_completion(rows: Seq<Task>, i: int, id: TaskId, next_at: u64, now: u64)
    requires
        0 <= i < rows.len(),
    ensures
        ({
            let after = rows.update(i, finished(rows[i], now)).push(successor(rows[i], id, next_at, now));
            &&& after.len() == rows.len() + 1
            &&& after[i].state == TaskState::Done
            &&& after[i].id == rows[i].id
            &&& after.last().state == TaskState::New
            &&& after.last().scheduled_at == next_at
            &&& after.last().id == id
            &&& after.last().task_type == rows[i].task_type
            &&& after.last().payload == rows[i].payload
            &&& forall|j: int| 0 <= j < rows.len() && j != i ==> after[j] == rows[j]
        }),
{
}

/// When the run of a periodic row completes, the store gains exactly one row:
/// `New`, due at the cron expression's next occurrence after the completion
/// time; the original row is `Done` and every other row is unchanged.
pub proof fn lemma_completed_periodic_run(
    before: TaskStore,
    after: TaskStore,
    i: int,
    id: TaskId,
    pattern: String,
    next_at: u64,
    now: u64,
    r: Result<TaskState, StoreError>,
)
    requires
        before.wf(),
        running_at(before.rows(), i, id),
        before.rows()[i].schedule == Some(Scheduled::CronPattern(pattern)),
        now <= MAX_TIMESTAMP,
        cron_next(pattern@, now) == Some(next_at),
        before.next_id() < u64::MAX,
        finish_effect(
            before,
            after,
            id,
            RunOutcome::Completed,
            spec_next_run_at(before.rows()[i].schedule, now),
            now,
            r,
        ),
    ensures
        r == Ok::<TaskState, StoreError>(TaskState::Done),
        after.rows().len() == before.rows().len() + 1,
        after.rows()[i].state == TaskState::Done,
        after.rows().last().state == TaskState::New,
        after.rows().last().scheduled_at == next_at,
        after.rows().last().id == before.next_id(),
        forall|j: int| 0 <= j < before.rows().len() && j != i ==> after.rows()[j] == before.rows()[j],
{
    assert(has_running(before.rows(), id));
    let k = choose|k: int|
        {
            &&& running_at(before.rows(), k, id)
            &&& after.rows() == before.rows().update(k, finished(before.rows()[k], now)).push(
                successor(before.rows()[k], before.next_id(), next_at, now),
            )
        };
    if k != i {
        assert(before.rows()[k].id != before.rows()[i].id);
    }
    lemma_periodic_completion(before.rows(), i, before.next_id(), next_at, now);
}

/// A run that aborts abnormally counts as one ordinary failure of its row (one
/// more attempt while retries are left), and once that is reported the worker,
/// unless asked to stop, goes on to claim the next task.
pub proof fn lemma_aborted_run_is_ordinary_failure(t: Task, now: u64, id: TaskId)
    requires
        t.state == TaskState::Running,
        t.attempt < t.max_retries,
    ensures
        after_failure(t, now).state == TaskState::New,
        after_failure(t, now).attempt == t.attempt + 1,
        worker_step(WorkerState::Executing(id), WorkerEvent::RunReported, false) == (
            WorkerState::Idle,
            WorkerAction::ClaimNext,
        ),
        worker_step(WorkerState::Idle, WorkerEvent::Polled(Some(id)), false) == (
            WorkerState::Executing(id),
            WorkerAction::Execute(id),
        ),
{
}

/// A worker never abandons a task it has claimed: the claim is executed even
/// when shutdown has been asked for, and the worker leaves the task only once its
/// run is reported or the store cannot be reached.
pub proof fn lemma_claimed_task_is_executed(id: TaskId, event: WorkerEvent, shutdown: bool)
    ensures
        worker_step(WorkerState::Idle, WorkerEvent::Polled(Some(id)), shutdown) == (
            WorkerState::Executing(id),
            WorkerAction::Execute(id),
        ),
        event != WorkerEvent::RunReported && event != WorkerEvent::StoreUnavailable ==> worker_step(
            WorkerState::Executing(id),
            event,
            shutdown,
        ) == (WorkerState::Executing(id), WorkerAction::Execute(id)),
{
}

} // verus!
