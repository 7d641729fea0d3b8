use vstd::prelude::*;

use crate::policy::{backoff_delay_secs, BackoffMode, RetentionMode};
use crate::schedule::{next_run_at, spec_next_run_at};

verus! {

/// Identity of a stored task.
pub type TaskId = u64;

/// The state of a stored task.
#[derive(Copy, Clone, Eq, PartialEq, Debug, Hash, Structural)]
pub enum TaskState {
    /// Inserted; eligible once its scheduled time has come.
    New,
    /// Claimed by exactly one worker.
    Running,
    /// Finished successfully (terminal).
    Done,
    /// Retries exhausted (terminal, dead-lettered).
    Failed,
}

impl TaskState {
    pub open spec fn spec_is_terminal(&self) -> bool {
        *self == TaskState::Done || *self == TaskState::Failed
    }

    /// Whether no further transition leaves this state.
    #[verifier::when_used_as_spec(spec_is_terminal)]
    pub fn is_terminal(&self) -> (r: bool)
        ensures
            r == self.spec_is_terminal(),
    {
        match self {
            TaskState::Done | TaskState::Failed => true,
            _ => false,
        }
    }
}

/// When a task runs: once at a timestamp (seconds since the Unix epoch, UTC),
/// or repeatedly per a cron expression.
#[derive(Debug)]
pub enum Scheduled {
    /// Run repeatedly according to a cron expression (UTC).
    CronPattern(String),
    /// Run once at the given timestamp.
    ScheduleOnce(u64),
}

impl Scheduled {
    /// A duplicate of the schedule.
    pub fn duplicate(&self) -> (r: Scheduled)
        ensures
            r == *self,
    {
        match self {
            Scheduled::CronPattern(p) => Scheduled::CronPattern(p.clone()),
            Scheduled::ScheduleOnce(t) => Scheduled::ScheduleOnce(*t),
        }
    }
}

/// A duplicate of an optional schedule.
pub fn duplicate_schedule(s: &Option<Scheduled>) -> (r: Option<Scheduled>)
    ensures
        r == *s,
{
    match s {
        Some(x) => Some(x.duplicate()),
        None => None,
    }
}

/// A task as the client describes it, before it is stored.
#[derive(Debug)]
pub struct NewTask {
    /// The type tag that selects the implementation decoding the payload.
    pub task_type: String,
    /// The serialized, self-describing payload.
    pub payload: String,
    /// Whether at most one unfinished equivalent task may be stored.
    pub uniq: bool,
    /// How many failures are retried.
    pub max_retries: i32,
    /// The delay policy between retries.
    pub backoff_mode: BackoffMode,
    /// When the task runs; `None` runs it as soon as it is claimed.
    pub schedule: Option<Scheduled>,
}

/// A stored task.
#[derive(Debug)]
pub struct Task {
    pub id: TaskId,
    pub task_type: String,
    pub payload: String,
    pub state: TaskState,
    /// The earliest time (seconds since the Unix epoch) at which it may be claimed.
    pub scheduled_at: u64,
    /// How many times it has failed so far.
    pub attempt: i32,
    pub max_retries: i32,
    pub backoff_mode: BackoffMode,
    pub uniq: bool,
    pub schedule: Option<Scheduled>,
    pub created_at: u64,
    pub updated_at: u64,
}

impl Task {
    /// A duplicate of the row, field for field.
    pub fn duplicate(&self) -> (r: Task)
        ensures
            r == *self,
    {
        Task {
            id: self.id,
            task_type: self.task_type.clone(),
            payload: self.payload.clone(),
            state: self.state,
            scheduled_at: self.scheduled_at,
            attempt: self.attempt,
            max_retries: self.max_retries,
            backoff_mode: self.backoff_mode,
            uniq: self.uniq,
            schedule: duplicate_schedule(&self.schedule),
            created_at: self.created_at,
            updated_at: self.updated_at,
        }
    }
}

/// The errors of the task store.
#[derive(Copy, Clone, Eq, PartialEq, Debug, Structural)]
pub enum StoreError {
    /// A unique task with the same type and payload is still unfinished.
    DuplicateTask,
    /// No running task has the given id.
    TaskNotFound,
    /// Every task id has been handed out.
    IdsExhausted,
    /// The cron expression does not parse or has no next occurrence.
    InvalidSchedule,
}

/// An unfinished row equivalent to a task of `task_type` / `payload`: it blocks
/// inserting such a task as unique.
pub open spec fn blocks(t: Task, task_type: Seq<char>, payload: Seq<char>) -> bool {
    !t.state.is_terminal() && t.task_type@ == task_type && t.payload@ == payload
}

/// Whether `nt` is unique and `rows` holds an unfinished task equivalent to it.
pub open spec fn has_duplicate(rows: Seq<Task>, nt: NewTask) -> bool {
    nt.uniq && exists|i: int| 0 <= i < rows.len() && blocks(#[trigger] rows[i], nt.task_type@, nt.payload@)
}

/// When a task inserted at `now` first becomes eligible: at once without a
/// schedule, at its timestamp when scheduled once, at the expression's next
/// occurrence when periodic (none when the expression has none).
pub open spec fn initial_run_at(schedule: Option<Scheduled>, now: u64) -> Option<u64> {
    match schedule {
        None => Some(now),
        Some(Scheduled::ScheduleOnce(t)) => Some(t),
        Some(Scheduled::CronPattern(_)) => spec_next_run_at(schedule, now),
    }
}

/// The row stored for `nt` under id `id` at time `now`, due at `run_at`.
pub open spec fn new_row(nt: NewTask, id: TaskId, run_at: u64, now: u64) -> Task {
    Task {
        id,
        task_type: nt.task_type,
        payload: nt.payload,
        state: TaskState::New,
        scheduled_at: run_at,
        attempt: 0,
        max_retries: nt.max_retries,
        backoff_mode: nt.backoff_mode,
        uniq: nt.uniq,
        schedule: nt.schedule,
        created_at: now,
        updated_at: now,
    }
}

/// Whether `task_type` passes the optional filter of accepted type tags.
pub open spec fn passes_filter(filter: Option<Vec<String>>, task_type: Seq<char>) -> bool {
    filter is None || exists|k: int| 0 <= k < filter->0@.len() && (#[trigger] filter->0@[k])@ == task_type
}

/// Whether row `t` may be claimed at time `now` under `filter`.
pub open spec fn eligible(t: Task, filter: Option<Vec<String>>, now: u64) -> bool {
    t.state == TaskState::New && t.scheduled_at <= now && passes_filter(filter, t.task_type@)
}

/// Row `i` is the one to claim: eligible, and no other eligible row is scheduled
/// earlier or, scheduled at the same time, was inserted earlier.
pub open spec fn first_eligible(rows: Seq<Task>, i: int, filter: Option<Vec<String>>, now: u64) -> bool {
    &&& 0 <= i < rows.len()
    &&& eligible(rows[i], filter, now)
    &&& forall|j: int|
        0 <= j < rows.len() && eligible(#[trigger] rows[j], filter, now) ==> rows[i].scheduled_at < rows[j].scheduled_at
            || (rows[i].scheduled_at == rows[j].scheduled_at && i <= j)
}

/// Whether any row may be claimed.
pub open spec fn any_eligible(rows: Seq<Task>, filter: Option<Vec<String>>, now: u64) -> bool {
    exists|j: int| 0 <= j < rows.len() && eligible(#[trigger] rows[j], filter, now)
}

/// Row `t` once claimed at `now`.
pub open spec fn claimed(t: Task, now: u64) -> Task {
    Task { state: TaskState::Running, updated_at: now, ..t }
}

/// Row `t` once reported done at `now`.
pub open spec fn finished(t: Task, now: u64) -> Task {
    Task { state: TaskState::Done, updated_at: now, ..t }
}

/// `a + b`, clamped to the largest `u64`.
pub open spec fn saturating_sum(a: u64, b: u64) -> u64 {
    if a + b > u64::MAX {
        u64::MAX
    } else {
        (a + b) as u64
    }
}

/// Row `t` once its run has failed at `now`: back to `New` with one more attempt,
/// after the backoff delay of the new attempt count, while retries are left;
/// dead-lettered otherwise.
pub open spec fn after_failure(t: Task, now: u64) -> Task {
    if t.attempt < t.max_retries {
        Task {
            state: TaskState::New,
            attempt: (t.attempt + 1) as i32,
            scheduled_at: saturating_sum(now, backoff_delay_secs(t.backoff_mode, t.attempt + 1) as u64),
            updated_at: now,
            ..t
        }
    } else {
        Task { state: TaskState::Failed, updated_at: now, ..t }
    }
}

/// The row that follows periodic row `t`: a fresh `New` row under `id`, due at `next_at`.
pub open spec fn successor(t: Task, id: TaskId, next_at: u64, now: u64) -> Task {
    Task {
        id,
        state: TaskState::New,
        scheduled_at: next_at,
        attempt: 0,
        created_at: now,
        updated_at: now,
        ..t
    }
}

/// Whether row `i` is the running row with id `id`.
pub open spec fn running_at(rows: Seq<Task>, i: int, id: TaskId) -> bool {
    0 <= i < rows.len() && rows[i].id == id && rows[i].state == TaskState::Running
}

/// Whether a running row has id `id`.
pub open spec fn has_running(rows: Seq<Task>, id: TaskId) -> bool {
    exists|i: int| running_at(rows, i, id)
}

/// Whether a purge under `mode` keeps row `t`.
pub open spec fn kept_by(mode: RetentionMode) -> spec_fn(Task) -> bool {
    |t: Task| !mode.removes(t.state)
}

/// The rows that a purge under `mode` leaves, in their order.
pub open spec fn purged(rows: Seq<Task>, mode: RetentionMode) -> Seq<Task> {
    rows.filter(kept_by(mode))
}

/// What inserting `nt` due at `run_at` at time `now` does: refused as a
/// duplicate, refused for want of ids, or stored under the next id.
pub open spec fn insert_effect(
    before: TaskStore,
    after: TaskStore,
    nt: NewTask,
    run_at: u64,
    now: u64,
    r: Result<TaskId, StoreError>,
) -> bool {
    &&& after.wf()
    &&& has_duplicate(before.rows(), nt) ==> r == Err::<TaskId, StoreError>(StoreError::DuplicateTask)
    &&& !has_duplicate(before.rows(), nt) && before.next_id() == u64::MAX ==> r == Err::<TaskId, StoreError>(
        StoreError::IdsExhausted,
    )
    &&& r is Err ==> after.rows() == before.rows() && after.next_id() == before.next_id()
    &&& !has_duplicate(before.rows(), nt) && before.next_id() < u64::MAX ==> {
        &&& r == Ok::<TaskId, StoreError>(before.next_id())
        &&& after.rows() == before.rows().push(new_row(nt, before.next_id(), run_at, now))
        &&& after.next_id() == before.next_id() + 1
    }
}

/// A durable-store model of the task queue: rows in insertion order.
pub struct TaskStore {
    tasks: Vec<Task>,
    next_id: TaskId,
}

impl TaskStore {
    pub closed spec fn rows(self) -> Seq<Task> {
        self.tasks@
    }

    pub closed spec fn next_id(self) -> TaskId {
        self.next_id
    }

    /// Ids are unique and below the next id, and no two unfinished unique rows
    /// are equivalent (a unique row is only stored where no unfinished
    /// equivalent row stands; rows that are not unique may repeat).
    pub open spec fn wf(self) -> bool {
        &&& forall|i: int| 0 <= i < self.rows().len() ==> #[trigger] self.rows()[i].id < self.next_id()
        &&& forall|i: int, j: int|
            0 <= i < self.rows().len() && 0 <= j < self.rows().len() && i != j
                ==> #[trigger] self.rows()[i].id != #[trigger] self.rows()[j].id
        &&& forall|i: int, j: int|
            0 <= i < self.rows().len() && 0 <= j < self.rows().len() && i != j && (#[trigger] self.rows()[i]).uniq
                && !self.rows()[i].state.is_terminal() && self.rows()[j].uniq ==> !blocks(
                #[trigger] self.rows()[j],
                self.rows()[i].task_type@,
                self.rows()[i].payload@,
            )
    }

    /// An empty store.
    pub fn new() -> (r: TaskStore)
        ensures
            r.wf(),
            r.rows() == Seq::<Task>::empty(),
            r.next_id() == 0,
    {
        TaskStore { tasks: Vec::new(), next_id: 0 }
    }

    /// The stored rows, in insertion order.
    pub fn tasks(&self) -> (r: &Vec<Task>)
        ensures
            r@ == self.rows(),
    {
        &self.tasks
    }

    /// Whether `nt` is unique and some unfinished row is equivalent to it.
    fn find_duplicate(&self, nt: &NewTask) -> (r: bool)
        ensures
            r == has_duplicate(self.rows(), *nt),
    {
        if !nt.uniq {
            return false;
        }
        let mut i: usize = 0;
        while i < self.tasks.len()
            invariant
                nt.uniq,
                i <= self.tasks.len(),
                forall|k: int| 0 <= k < i ==> !blocks(#[trigger] self.tasks@[k], nt.task_type@, nt.payload@),
            decreases self.tasks.len() - i,
        {
            let t = &self.tasks[i];
            if !t.state.is_terminal() && t.task_type == nt.task_type && t.payload == nt.payload {
                return true;
            }
            i = i + 1;
        }
        false
    }

    /// Stores `nt` at time `now` as a `New` row due at `run_at`.
    ///
    /// Fails with `DuplicateTask` when `nt` is unique and an equivalent row (unique
    /// or not) is unfinished, and with `IdsExhausted` when no id is left.
    pub fn insert_at(&mut self, nt: NewTask, run_at: u64, now: u64) -> (r: Result<TaskId, StoreError>)
        requires
            old(self).wf(),
        ensures
            insert_effect(*old(self), *final(self), nt, run_at, now, r),
    {
        if self.find_duplicate(&nt) {
            return Err(StoreError::DuplicateTask);
        }
        if self.next_id == u64::MAX {
            return Err(StoreError::IdsExhausted);
        }
        let id = self.next_id;
        let row = Task {
            id,
            task_type: nt.task_type,
            payload: nt.payload,
            state: TaskState::New,
            scheduled_at: run_at,
            attempt: 0,
            max_retries: nt.max_retries,
            backoff_mode: nt.backoff_mode,
            uniq: nt.uniq,
            schedule: nt.schedule,
            created_at: now,
            updated_at: now,
        };
        self.tasks.push(row);
        self.next_id = id + 1;
        Ok(id)
    }

    /// Stores `nt` as a `New` row at time `now`, due when its schedule says
    /// (see [`initial_run_at`]).
    ///
    /// Fails with `DuplicateTask` when `nt` is unique and an equivalent row is
    /// unfinished; else with `InvalidSchedule` when a cron expression has no next
    /// occurrence; else as [`TaskStore::insert_at`] does.
    pub fn insert(&mut self, nt: NewTask, now: u64) -> (r: Result<TaskId, StoreError>)
        requires
            old(self).wf(),
        ensures
            has_duplicate(old(self).rows(), nt) ==> r == Err::<TaskId, StoreError>(StoreError::DuplicateTask)
                && *final(self) == *old(self),
            !has_duplicate(old(self).rows(), nt) && initial_run_at(nt.schedule, now) is None ==> r == Err::<
                TaskId,
                StoreError,
            >(StoreError::InvalidSchedule) && *final(self) == *old(self),
            !has_duplicate(old(self).rows(), nt) ==> (initial_run_at(nt.schedule, now) matches Some(run_at)
                ==> insert_effect(*old(self), *final(self), nt, run_at, now, r)),
    {
        if self.find_duplicate(&nt) {
            return Err(StoreError::DuplicateTask);
        }
        let run_at = match &nt.schedule {
            None => now,
            Some(Scheduled::ScheduleOnce(t)) => *t,
            Some(Scheduled::CronPattern(_)) => match next_run_at(&nt.schedule, now) {
                Some(t) => t,
                None => {
                    return Err(StoreError::InvalidSchedule);
                },
            },
        };
        self.insert_at(nt, run_at, now)
    }
    /// Whether `task_type` passes `filter`.
    fn in_filter(filter: &Option<Vec<String>>, task_type: &String) -> (r: bool)
        ensures
            r == passes_filter(*filter, task_type@),
    {
        match filter {
            None => true,
            Some(v) => {
                let mut k: usize = 0;
                while k < v.len()
                    invariant
                        *filter == Some(*v),
                        k <= v@.len(),
                        forall|m: int| 0 <= m < k ==> (#[trigger] v@[m])@ != task_type@,
                    decreases v.len() - k,
                {
                    if v[k] == *task_type {
                        assert(filter->0@[k as int]@ == task_type@);
                        return true;
                    }
                    k = k + 1;
                }
                false
            },
        }
    }

    /// Atomically claims the eligible row at time `now`, if any: the one scheduled
    /// earliest, and among those the one inserted first. It becomes `Running` and
    /// a snapshot of it is returned.
    pub fn claim_next(&mut self, type_filter: &Option<Vec<String>>, now: u64) -> (r: Option<Task>)
        requires
            old(self).wf(),
        ensures
            final(self).wf(),
            final(self).next_id() == old(self).next_id(),
            r is None <==> !any_eligible(old(self).rows(), *type_filter, now),
            r is None ==> final(self).rows() == old(self).rows(),
            r matches Some(t) ==> exists|i: int|
                {
                    &&& first_eligible(old(self).rows(), i, *type_filter, now)
                    &&& t == claimed(old(self).rows()[i], now)
                    &&& final(self).rows() == old(self).rows().update(i, t)
                },
    {
        let mut best: Option<usize> = None;
        let mut i: usize = 0;
        while i < self.tasks.len()
            invariant
                i <= self.tasks.len(),
                best is None ==> forall|j: int| 0 <= j < i ==> !eligible(#[trigger] self.tasks@[j], *type_filter, now),
                best matches Some(b) ==> b < i && first_eligible(self.tasks@.subrange(0, i as int), b as int, *type_filter, now),
            decreases self.tasks.len() - i,
        {
            let t = &self.tasks[i];
            if t.state == TaskState::New && t.scheduled_at <= now && Self::in_filter(type_filter, &t.task_type) {
                match best {
                    None => {
                        best = Some(i);
                    },
                    Some(b) => {
                        if t.scheduled_at < self.tasks[b].scheduled_at {
                            best = Some(i);
                        }
                    },
                }
            }
            proof {
                let s = self.tasks@.subrange(0, i + 1);
                assert forall|j: int| 0 <= j < i + 1 implies s[j] == self.tasks@[j] by {}
            }
            i = i + 1;
        }
        proof {
            assert(self.tasks@.subrange(0, self.tasks@.len() as int) == self.tasks@);
        }
        match best {
            None => None,
            Some(b) => {
                let ghost rows0 = self.tasks@;
                self.tasks[b].state = TaskState::Running;
                self.tasks[b].updated_at = now;
                let t = self.tasks[b].duplicate();
                assert(first_eligible(rows0, b as int, *type_filter, now));
                assert(t == claimed(rows0[b as int], now));
                assert(self.tasks@ == rows0.update(b as int, t));
                Some(t)
            },
        }
    }

    /// The position of the running row with id `id`, if any.
    pub(crate) fn find_running(&self, id: TaskId) -> (r: Option<usize>)
        ensures
            r is None <==> !has_running(self.rows(), id),
            r matches Some(i) ==> running_at(self.rows(), i as int, id),
    {
        let mut i: usize = 0;
        while i < self.tasks.len()
            invariant
                i <= self.tasks.len(),
                forall|j: int| 0 <= j < i ==> !running_at(self.tasks@, j, id),
            decreases self.tasks.len() - i,
        {
            if self.tasks[i].id == id && self.tasks[i].state == TaskState::Running {
                assert(running_at(self.tasks@, i as int, id));
                return Some(i);
            }
            i = i + 1;
        }
        None
    }

    /// Reports that the running row `id` finished successfully: it becomes `Done`.
    pub fn report_success(&mut self, id: TaskId, now: u64) -> (r: Result<(), StoreError>)
        requires
            old(self).wf(),
        ensures
            final(self).wf(),
            final(self).next_id() == old(self).next_id(),
            r is Err <==> !has_running(old(self).rows(), id),
            r is Err ==> r == Err::<(), StoreError>(StoreError::TaskNotFound) && final(self).rows() == old(self).rows(),
            r is Ok ==> exists|i: int|
                running_at(old(self).rows(), i, id) && final(self).rows() == old(self).rows().update(
                    i,
                    finished(old(self).rows()[i], now),
                ),
    {
        match self.find_running(id) {
            None => Err(StoreError::TaskNotFound),
            Some(i) => {
                self.tasks[i].state = TaskState::Done;
                self.tasks[i].updated_at = now;
                Ok(())
            },
        }
    }

    /// Reports that the run of the running row `id` failed at `now`. While
    /// retries are left the row returns to `New` with one more attempt, due after
    /// the backoff delay; otherwise it is dead-lettered as `Failed`. Returns the
    /// row's new state.
    pub fn report_failure(&mut self, id: TaskId, now: u64) -> (r: Result<TaskState, StoreError>)
        requires
            old(self).wf(),
        ensures
            final(self).wf(),
            final(self).next_id() == old(self).next_id(),
            r is Err <==> !has_running(old(self).rows(), id),
            r is Err ==> r == Err::<TaskState, StoreError>(StoreError::TaskNotFound) && final(self).rows() == old(self).rows(),
            r matches Ok(st) ==> exists|i: int|
                {
                    &&& running_at(old(self).rows(), i, id)
                    &&& final(self).rows() == old(self).rows().update(i, after_failure(old(self).rows()[i], now))
                    &&& st == after_failure(old(self).rows()[i], now).state
                },
    {
        match self.find_running(id) {
            None => Err(StoreError::TaskNotFound),
            Some(i) => {
                let attempt = self.tasks[i].attempt;
                if attempt < self.tasks[i].max_retries {
                    let delay = self.tasks[i].backoff_mode.delay_secs(attempt + 1);
                    self.tasks[i].state = TaskState::New;
                    self.tasks[i].attempt = attempt + 1;
                    self.tasks[i].scheduled_at = now.saturating_add(delay);
                    self.tasks[i].updated_at = now;
                    Ok(TaskState::New)
                } else {
                    self.tasks[i].state = TaskState::Failed;
                    self.tasks[i].updated_at = now;
                    Ok(TaskState::Failed)
                }
            },
        }
    }

    /// Completes the running periodic row `id` at `now`: it becomes `Done`, and a
    /// fresh `New` row with the same type, payload and policy is stored, due at
    /// `next_at` (the schedule's next occurrence). Returns the new row's id.
    pub fn reschedule_periodic(&mut self, id: TaskId, next_at: u64, now: u64) -> (r: Result<TaskId, StoreError>)
        requires
            old(self).wf(),
        ensures
            final(self).wf(),
            !has_running(old(self).rows(), id) ==> r == Err::<TaskId, StoreError>(StoreError::TaskNotFound),
            has_running(old(self).rows(), id) && old(self).next_id() == u64::MAX ==> r == Err::<TaskId, StoreError>(StoreError::IdsExhausted),
            r is Err ==> final(self).rows() == old(self).rows() && final(self).next_id() == old(self).next_id(),
            has_running(old(self).rows(), id) && old(self).next_id() < u64::MAX ==> {
                &&& r == Ok::<TaskId, StoreError>(old(self).next_id())
                &&& final(self).next_id() == old(self).next_id() + 1
                &&& exists|i: int|
                    {
                        &&& running_at(old(self).rows(), i, id)
                        &&& final(self).rows() == old(self).rows().update(i, finished(old(self).rows()[i], now)).push(
                            successor(old(self).rows()[i], old(self).next_id(), next_at, now),
                        )
                    }
            },
    {
        match self.find_running(id) {
            None => Err(StoreError::TaskNotFound),
            Some(i) => {
                if self.next_id == u64::MAX {
                    return Err(StoreError::IdsExhausted);
                }
                let new_id = self.next_id;
                let mut next = self.tasks[i].duplicate();
                next.id = new_id;
                next.state = TaskState::New;
                next.scheduled_at = next_at;
                next.attempt = 0;
                next.created_at = now;
                next.updated_at = now;
                self.tasks[i].state = TaskState::Done;
                self.tasks[i].updated_at = now;
                self.tasks.push(next);
                self.next_id = new_id + 1;
                Ok(new_id)
            },
        }
    }
    /// Deletes the finished rows that `mode` does not retain; the other rows keep
    /// their order.
    pub fn purge(&mut self, mode: RetentionMode)
        requires
            old(self).wf(),
        ensures
            final(self).wf(),
            final(self).next_id() == old(self).next_id(),
            final(self).rows() == purged(old(self).rows(), mode),
    {
        let ghost rows = self.tasks@;
        let mut out: Vec<Task> = Vec::new();
        let ghost mut idx: Seq<int> = Seq::empty();
        let mut i: usize = 0;
        while i < self.tasks.len()
            invariant
                self.tasks@ == rows,
                self.wf(),
                i <= rows.len(),
                out@ == rows.subrange(0, i as int).filter(kept_by(mode)),
                idx.len() == out@.len(),
                forall|k: int| 0 <= k < idx.len() ==> 0 <= #[trigger] idx[k] < i && out@[k] == rows[idx[k]],
                forall|a: int, b: int| 0 <= a < b < idx.len() ==> #[trigger] idx[a] < #[trigger] idx[b],
            decreases rows.len() - i,
        {
            proof {
                assert(rows.subrange(0, i + 1).drop_last() == rows.subrange(0, i as int));
                assert(rows.subrange(0, i + 1).last() == rows[i as int]);
                let p = kept_by(mode);
                assert(p(rows[i as int]) == !mode.spec_removes(rows[i as int].state));
                reveal_with_fuel(Seq::filter, 1);
                assert(rows.subrange(0, i + 1).filter(p) == if p(rows[i as int]) {
                    rows.subrange(0, i as int).filter(p).push(rows[i as int])
                } else {
                    rows.subrange(0, i as int).filter(p)
                });
            }
            if !mode.removes(self.tasks[i].state) {
                let t = self.tasks[i].duplicate();
                out.push(t);
                proof {
                    idx = idx.push(i as int);
                }
            }
            i = i + 1;
        }
        proof {
            assert(rows.subrange(0, rows.len() as int) == rows);
        }
        self.tasks = out;
        proof {
            assert forall|a: int, b: int| 0 <= a < idx.len() && 0 <= b < idx.len() && a != b implies idx[a] != idx[b] by {
                if a < b {
                    assert(idx[a] < idx[b]);
                } else {
                    assert(idx[b] < idx[a]);
                }
            }
            assert forall|a: int| 0 <= a < self.rows().len() implies #[trigger] self.rows()[a].id < self.next_id() by {
                assert(self.rows()[a] == rows[idx[a]]);
            }
            assert forall|a: int, b: int|
                0 <= a < self.rows().len() && 0 <= b < self.rows().len() && a != b implies #[trigger] self.rows()[a].id
                != #[trigger] self.rows()[b].id by {
                assert(idx[a] != idx[b]);
                assert(self.rows()[a] == rows[idx[a]]);
                assert(self.rows()[b] == rows[idx[b]]);
            }
            assert forall|a: int, b: int|
                0 <= a < self.rows().len() && 0 <= b < self.rows().len() && a != b && (#[trigger] self.rows()[a]).uniq
                    && !self.rows()[a].state.is_terminal() && self.rows()[b].uniq implies !blocks(
                #[trigger] self.rows()[b],
                self.rows()[a].task_type@,
                self.rows()[a].payload@,
            ) by {
                assert(idx[a] != idx[b]);
                assert(self.rows()[a] == rows[idx[a]]);
                assert(self.rows()[b] == rows[idx[b]]);
            }
        }
    }
}

} // verus!
