use frango::{
    AsyncRunnable, BackoffMode, NewTask, RetentionMode, RunOutcome, Scheduled, StoreError, TaskState, TaskStore,
    Worker, WorkerAction, WorkerEvent, WorkerState, COMMON_TYPE, RETRIES_NUMBER,
};

fn new_task(task_type: &str, payload: &str, uniq: bool, schedule: Option<Scheduled>) -> NewTask {
    NewTask {
        task_type: task_type.to_string(),
        payload: payload.to_string(),
        uniq,
        max_retries: 3,
        backoff_mode: BackoffMode::ExponentialBackoff,
        schedule,
    }
}

fn state_of(store: &TaskStore, id: u64) -> Option<TaskState> {
    store.tasks().iter().find(|t| t.id == id).map(|t| t.state)
}

#[test]
fn defaults_match_policy() {
    assert_eq!(RetentionMode::default(), RetentionMode::RemoveDone);
    assert_eq!(BackoffMode::default(), BackoffMode::ExponentialBackoff);
}

#[test]
fn exponential_backoff_doubles() {
    let m = BackoffMode::ExponentialBackoff;
    assert_eq!(m.next_attampt(0).as_secs(), 2);
    assert_eq!(m.next_attampt(1).as_secs(), 4);
    assert_eq!(m.next_attampt(3).as_secs(), 16);
    assert_eq!(m.next_attampt(62).as_secs(), 1u64 << 63);
    assert_eq!(m.delay_secs(-1), 1);
}

#[test]
fn exponential_backoff_clamps() {
    let m = BackoffMode::ExponentialBackoff;
    assert_eq!(m.next_attampt(63).as_secs(), u64::MAX);
    assert_eq!(m.next_attampt(1000).as_secs(), u64::MAX);
    assert_eq!(m.next_attampt(i32::MAX).as_secs(), u64::MAX);
    assert_eq!(m.next_attampt(-5).as_secs(), u64::MAX);
}

#[test]
fn no_backoff_is_zero() {
    let m = BackoffMode::NoBackoff;
    for a in [0, 1, 10, 100, i32::MAX, -3] {
        assert_eq!(m.next_attampt(a).as_secs(), 0);
    }
}

#[test]
fn retention_classifies_states() {
    assert!(!RetentionMode::KeepAll.removes(TaskState::Done));
    assert!(!RetentionMode::KeepAll.removes(TaskState::Failed));
    assert!(RetentionMode::RemoveAll.removes(TaskState::Done));
    assert!(RetentionMode::RemoveAll.removes(TaskState::Failed));
    assert!(!RetentionMode::RemoveAll.removes(TaskState::New));
    assert!(RetentionMode::RemoveDone.removes(TaskState::Done));
    assert!(!RetentionMode::RemoveDone.removes(TaskState::Failed));
    assert!(!RetentionMode::RemoveDone.removes(TaskState::Running));
}

#[test]
fn unique_duplicate_is_refused() {
    let mut s = TaskStore::new();
    assert_eq!(s.insert(new_task("email", "{\"to\":\"a\"}", true, None), 10), Ok(0));
    assert_eq!(s.insert(new_task("email", "{\"to\":\"a\"}", true, None), 11), Err(StoreError::DuplicateTask));
    // A different payload or type is no duplicate.
    assert_eq!(s.insert(new_task("email", "{\"to\":\"b\"}", true, None), 12), Ok(1));
    assert_eq!(s.insert(new_task("sms", "{\"to\":\"a\"}", true, None), 13), Ok(2));
    // Non-unique tasks are always stored.
    assert_eq!(s.insert(new_task("email", "{\"to\":\"a\"}", false, None), 14), Ok(3));
    assert_eq!(s.tasks().len(), 4);
}

#[test]
fn unique_allowed_again_after_finish() {
    let mut s = TaskStore::new();
    assert_eq!(s.insert(new_task("email", "p", true, None), 10), Ok(0));
    let t = s.claim_next(&None, 10).unwrap();
    assert_eq!(s.insert(new_task("email", "p", true, None), 11), Err(StoreError::DuplicateTask));
    assert_eq!(s.report_success(t.id, 12), Ok(()));
    assert_eq!(s.insert(new_task("email", "p", true, None), 13), Ok(1));
}

#[test]
fn single_task_claimed_once() {
    let mut s = TaskStore::new();
    s.insert(new_task("email", "p", false, None), 5).unwrap();
    let first = s.claim_next(&None, 5);
    assert_eq!(first.map(|t| t.id), Some(0));
    assert!(s.claim_next(&None, 5).is_none());
    assert!(s.claim_next(&None, 1000).is_none());
    assert_eq!(state_of(&s, 0), Some(TaskState::Running));
}

#[test]
fn claim_orders_by_schedule_then_insertion() {
    let mut s = TaskStore::new();
    s.insert(new_task("a", "1", false, Some(Scheduled::ScheduleOnce(50))), 0).unwrap();
    s.insert(new_task("a", "2", false, Some(Scheduled::ScheduleOnce(20))), 0).unwrap();
    s.insert(new_task("a", "3", false, Some(Scheduled::ScheduleOnce(20))), 0).unwrap();
    assert_eq!(s.claim_next(&None, 100).map(|t| t.id), Some(1));
    assert_eq!(s.claim_next(&None, 100).map(|t| t.id), Some(2));
    assert_eq!(s.claim_next(&None, 100).map(|t| t.id), Some(0));
    assert!(s.claim_next(&None, 100).is_none());
}

#[test]
fn claim_respects_type_filter() {
    let mut s = TaskStore::new();
    s.insert(new_task("email", "1", false, None), 0).unwrap();
    s.insert(new_task("sms", "2", false, None), 0).unwrap();
    let only_sms = Some(vec!["sms".to_string()]);
    assert_eq!(s.claim_next(&only_sms, 0).map(|t| t.id), Some(1));
    assert!(s.claim_next(&only_sms, 0).is_none());
    assert!(s.claim_next(&Some(vec![]), 0).is_none());
    assert_eq!(s.claim_next(&None, 0).map(|t| t.id), Some(0));
}

#[test]
fn failure_scenario_backs_off() {
    let now = 1_000;
    let mut s = TaskStore::new();
    let id = s.insert(new_task("email", "p", false, None), now).unwrap();
    let t = s.claim_next(&None, now).unwrap();
    assert_eq!(t.id, id);
    assert_eq!(t.attempt, 0);
    assert_eq!(s.report_failure(id, now), Ok(TaskState::New));
    let row = &s.tasks()[0];
    assert_eq!(row.state, TaskState::New);
    assert_eq!(row.attempt, 1);
    assert_eq!(row.scheduled_at, now + 4);
    assert!(s.claim_next(&None, now + 3).is_none());
    assert_eq!(s.claim_next(&None, now + 4).map(|t| t.id), Some(id));
}

#[test]
fn failures_count_to_dead_letter() {
    let mut s = TaskStore::new();
    let mut nt = new_task("email", "p", false, None);
    nt.backoff_mode = BackoffMode::NoBackoff;
    let id = s.insert(nt, 0).unwrap();
    for expected in 1..=3 {
        s.claim_next(&None, 0).unwrap();
        assert_eq!(s.report_failure(id, 0), Ok(TaskState::New));
        assert_eq!(s.tasks()[0].attempt, expected);
    }
    s.claim_next(&None, 0).unwrap();
    assert_eq!(s.report_failure(id, 0), Ok(TaskState::Failed));
    assert_eq!(s.tasks()[0].attempt, 3);
    assert!(s.claim_next(&None, u64::MAX).is_none());
    assert_eq!(s.report_failure(id, 0), Err(StoreError::TaskNotFound));
}

#[test]
fn scheduled_once_waits() {
    let now = 10_000;
    let mut s = TaskStore::new();
    let id = s.insert(new_task("email", "p", false, Some(Scheduled::ScheduleOnce(now + 3600))), now).unwrap();
    assert!(s.claim_next(&None, now).is_none());
    assert!(s.claim_next(&None, now + 3599).is_none());
    assert_eq!(s.claim_next(&None, now + 3600).map(|t| t.id), Some(id));
}

#[test]
fn purge_follows_retention() {
    let build = || {
        let mut s = TaskStore::new();
        for p in ["done", "failed", "new", "running"] {
            let mut nt = new_task("t", p, false, None);
            nt.max_retries = 0;
            s.insert(nt, 0).unwrap();
        }
        s.claim_next(&None, 0).unwrap();
        s.report_success(0, 1).unwrap();
        s.claim_next(&None, 0).unwrap();
        assert_eq!(s.report_failure(1, 1), Ok(TaskState::Failed));
        s.claim_next(&None, 0).unwrap();
        s.report_failure(2, 1).unwrap();
        let mut back = TaskStore::new();
        std::mem::swap(&mut back, &mut s);
        back
    };
    let ids = |s: &TaskStore| s.tasks().iter().map(|t| t.id).collect::<Vec<_>>();

    let mut keep = build();
    keep.purge(RetentionMode::KeepAll);
    assert_eq!(ids(&keep), vec![0, 1, 2, 3]);

    let mut done = build();
    done.purge(RetentionMode::RemoveDone);
    assert_eq!(ids(&done), vec![1, 2, 3]);

    let mut all = build();
    all.purge(RetentionMode::RemoveAll);
    assert_eq!(ids(&all), vec![3]);
}

#[test]
fn periodic_completion_adds_successor() {
    let mut s = TaskStore::new();
    let cron = Some(Scheduled::CronPattern("0 */5 * * * * *".to_string()));
    let id = s.insert(new_task("report", "p", true, cron), 100).unwrap();
    assert_eq!(s.tasks()[0].scheduled_at, 300);
    assert!(s.claim_next(&None, 299).is_none());
    s.claim_next(&None, 300).unwrap();
    let next = s.reschedule_periodic(id, 400, 150).unwrap();
    assert_ne!(next, id);
    assert_eq!(s.tasks().len(), 2);
    assert_eq!(state_of(&s, id), Some(TaskState::Done));
    let succ = &s.tasks()[1];
    assert_eq!(succ.id, next);
    assert_eq!(succ.state, TaskState::New);
    assert_eq!(succ.scheduled_at, 400);
    assert_eq!(succ.attempt, 0);
    assert_eq!(succ.payload, "p");
    assert!(s.claim_next(&None, 399).is_none());
    assert_eq!(s.claim_next(&None, 400).map(|t| t.id), Some(next));
    assert_eq!(s.reschedule_periodic(id, 500, 160), Err(StoreError::TaskNotFound));
}

#[test]
fn aborted_run_is_ordinary_failure() {
    let mut s = TaskStore::new();
    let a = s.insert(new_task("crash", "1", false, None), 0).unwrap();
    let b = s.insert(new_task("ok", "2", false, None), 0).unwrap();
    let mut w = Worker::new();
    let claimed = s.claim_next(&None, 0).map(|t| t.id);
    assert_eq!(w.on_event(WorkerEvent::Polled(claimed), false), WorkerAction::Execute(a));
    assert_eq!(s.finish_run(a, RunOutcome::Aborted, None, 0), Ok(TaskState::New));
    assert_eq!(s.tasks()[0].attempt, 1);
    assert_eq!(w.on_event(WorkerEvent::RunReported, false), WorkerAction::ClaimNext);
    let claimed = s.claim_next(&None, 0).map(|t| t.id);
    assert_eq!(w.on_event(WorkerEvent::Polled(claimed), false), WorkerAction::Execute(b));
    assert_eq!(s.finish_run(b, RunOutcome::Completed, None, 1), Ok(TaskState::Done));
}

#[test]
fn finish_run_errored_and_periodic() {
    let mut s = TaskStore::new();
    let a = s.insert(new_task("x", "1", false, None), 0).unwrap();
    s.claim_next(&None, 0).unwrap();
    assert_eq!(s.finish_run(a, RunOutcome::Errored, None, 10), Ok(TaskState::New));
    assert_eq!(s.tasks()[0].scheduled_at, 14);
    s.claim_next(&None, 14).unwrap();
    assert_eq!(s.finish_run(a, RunOutcome::Completed, Some(99), 20), Ok(TaskState::Done));
    assert_eq!(s.tasks().len(), 2);
    assert_eq!(s.tasks()[1].scheduled_at, 99);
    assert_eq!(s.finish_run(a, RunOutcome::Completed, None, 30), Err(StoreError::TaskNotFound));
}

#[test]
fn worker_idles_and_stops() {
    let mut w = Worker::new();
    assert_eq!(w.on_event(WorkerEvent::Polled(None), false), WorkerAction::SleepThenClaim);
    assert_eq!(w.on_event(WorkerEvent::StoreUnavailable, false), WorkerAction::SleepThenClaim);
    assert_eq!(w.state, WorkerState::Idle);
    assert_eq!(w.on_event(WorkerEvent::Polled(Some(7)), false), WorkerAction::Execute(7));
    // Shutdown waits for the running task.
    assert_eq!(w.on_event(WorkerEvent::Polled(None), true), WorkerAction::Execute(7));
    assert_eq!(w.on_event(WorkerEvent::RunReported, true), WorkerAction::Halt);
    assert_eq!(w.state, WorkerState::Stopped);
    assert_eq!(w.on_event(WorkerEvent::Polled(Some(8)), false), WorkerAction::Halt);
}

#[test]
fn worker_runs_claim_made_during_shutdown() {
    let mut w = Worker::new();
    assert_eq!(w.on_event(WorkerEvent::Polled(Some(4)), true), WorkerAction::Execute(4));
    assert_eq!(w.state, WorkerState::Executing(4));
    assert_eq!(w.on_event(WorkerEvent::RunReported, true), WorkerAction::Halt);
    let mut idle = Worker::new();
    assert_eq!(idle.on_event(WorkerEvent::Polled(None), true), WorkerAction::Halt);
}

#[test]
fn worker_backs_off_when_store_lost_mid_task() {
    let mut w = Worker::new();
    assert_eq!(w.on_event(WorkerEvent::Polled(Some(2)), false), WorkerAction::Execute(2));
    assert_eq!(w.on_event(WorkerEvent::StoreUnavailable, false), WorkerAction::SleepThenClaim);
    assert_eq!(w.state, WorkerState::Idle);
}

#[test]
fn cron_past_latest_timestamp_is_invalid() {
    let mut s = TaskStore::new();
    let hourly = Some(Scheduled::CronPattern("0 0 * * * *".to_string()));
    let late = frango::schedule::MAX_TIMESTAMP + 1;
    assert_eq!(frango::next_run_at(&hourly, late), None);
    assert_eq!(s.insert(new_task("x", "1", false, hourly), late), Err(StoreError::InvalidSchedule));
    assert_eq!(s.insert(new_task("x", "1", false, None), u64::MAX), Ok(0));
    assert_eq!(s.tasks()[0].scheduled_at, u64::MAX);
}

#[test]
fn store_errors_for_unknown_ids() {
    let mut s = TaskStore::new();
    assert_eq!(s.report_success(3, 0), Err(StoreError::TaskNotFound));
    assert_eq!(s.report_failure(3, 0), Err(StoreError::TaskNotFound));
    let id = s.insert(new_task("x", "1", false, None), 0).unwrap();
    // Not running yet.
    assert_eq!(s.report_success(id, 0), Err(StoreError::TaskNotFound));
}

struct Plain;

impl AsyncRunnable for Plain {}

#[test]
fn runnable_defaults() {
    let p = Plain;
    assert_eq!(p.task_type(), COMMON_TYPE);
    assert_eq!(p.task_type(), "common");
    assert!(!p.uniq());
    assert!(p.cron().is_none());
    assert_eq!(p.max_retries(), RETRIES_NUMBER);
    assert_eq!(p.max_retries(), 20);
    assert_eq!(p.backoff_mode(), BackoffMode::ExponentialBackoff);
    assert_eq!(p.backoff(0), 1);
    assert_eq!(p.backoff(5), 32);
    assert_eq!(p.backoff(31), 1u32 << 31);
}

#[test]
fn next_run_follows_cron() {
    let every_five_minutes = Some(Scheduled::CronPattern("0 */5 * * * *".to_string()));
    assert_eq!(frango::next_run_at(&every_five_minutes, 100), Some(300));
    assert_eq!(frango::next_run_at(&every_five_minutes, 300), Some(600));
    assert_eq!(frango::next_run_at(&Some(Scheduled::CronPattern("not a cron".to_string())), 100), None);
    assert_eq!(frango::next_run_at(&Some(Scheduled::ScheduleOnce(500)), 100), None);
    assert_eq!(frango::next_run_at(&None, 100), None);
}

#[test]
fn invalid_cron_is_refused() {
    let mut s = TaskStore::new();
    let bad = Some(Scheduled::CronPattern("every tuesday".to_string()));
    assert_eq!(s.insert(new_task("x", "1", false, bad), 0), Err(StoreError::InvalidSchedule));
    assert!(s.tasks().is_empty());
    assert_eq!(s.insert(new_task("x", "1", false, None), 0), Ok(0));
}

#[test]
fn insert_at_uses_given_time() {
    let mut s = TaskStore::new();
    assert_eq!(s.insert_at(new_task("x", "1", true, None), 70, 5), Ok(0));
    assert_eq!(s.tasks()[0].scheduled_at, 70);
    assert_eq!(s.tasks()[0].created_at, 5);
    assert_eq!(s.insert_at(new_task("x", "1", true, None), 80, 6), Err(StoreError::DuplicateTask));
}

#[test]
fn complete_reschedules_periodic_rows() {
    let mut s = TaskStore::new();
    let cron = Some(Scheduled::CronPattern("0 */5 * * * *".to_string()));
    let id = s.insert(new_task("report", "p", false, cron), 0).unwrap();
    assert_eq!(s.tasks()[0].scheduled_at, 300);
    s.claim_next(&None, 300).unwrap();
    assert_eq!(s.complete(id, RunOutcome::Completed, 310), Ok(TaskState::Done));
    assert_eq!(s.tasks().len(), 2);
    assert_eq!(s.tasks()[0].state, TaskState::Done);
    assert_eq!(s.tasks()[1].state, TaskState::New);
    assert_eq!(s.tasks()[1].scheduled_at, 600);
    // A failed periodic run is retried, not rescheduled.
    let next = s.tasks()[1].id;
    s.claim_next(&None, 600).unwrap();
    assert_eq!(s.complete(next, RunOutcome::Errored, 600), Ok(TaskState::New));
    assert_eq!(s.tasks().len(), 2);
    assert_eq!(s.complete(next, RunOutcome::Completed, 600), Err(StoreError::TaskNotFound));
}

#[test]
fn complete_one_shot_finishes() {
    let mut s = TaskStore::new();
    let id = s.insert(new_task("x", "1", false, Some(Scheduled::ScheduleOnce(9))), 0).unwrap();
    s.claim_next(&None, 9).unwrap();
    assert_eq!(s.complete(id, RunOutcome::Completed, 10), Ok(TaskState::Done));
    assert_eq!(s.tasks().len(), 1);
}

#[test]
fn cron_at_latest_timestamp() {
    let hourly = Some(Scheduled::CronPattern("0 0 * * * *".to_string()));
    assert_eq!(frango::next_run_at(&hourly, frango::schedule::MAX_TIMESTAMP), None);
    assert_eq!(frango::next_run_at(&hourly, 3_599), Some(3_600));
}

#[test]
fn plain_row_blocks_unique_insert() {
    let mut s = TaskStore::new();
    assert_eq!(s.insert(new_task("email", "p", false, None), 0), Ok(0));
    assert_eq!(s.insert(new_task("email", "p", true, None), 1), Err(StoreError::DuplicateTask));
    // Once the plain row is finished the unique task is accepted.
    s.claim_next(&None, 1).unwrap();
    s.report_success(0, 2).unwrap();
    assert_eq!(s.insert(new_task("email", "p", true, None), 3), Ok(1));
}

#[test]
fn duplicate_reported_before_schedule() {
    let mut s = TaskStore::new();
    let bad = || Some(Scheduled::CronPattern("not a cron".to_string()));
    assert_eq!(s.insert_at(new_task("r", "p", true, bad()), 5, 0), Ok(0));
    assert_eq!(s.insert(new_task("r", "p", true, bad()), 1), Err(StoreError::DuplicateTask));
    assert_eq!(s.insert(new_task("r", "p", false, bad()), 1), Err(StoreError::InvalidSchedule));
}
