use rfs::jobs::{JobAction, JobEvent, JobStage, JobTask};

#[test]
fn never_run_job_runs_at_once() {
    let mut t = JobTask::new(None);
    assert_eq!(t.step(JobEvent::Begin), JobAction::Run);
    assert_eq!(t.step(JobEvent::RunFinished { ok: true, now: 1_000 }), JobAction::Save);
    assert_eq!(t.last_run, Some(1_000));
    assert_eq!(t.step(JobEvent::Saved { ok: true }), JobAction::NextSlot);
    assert_eq!(
        t.step(JobEvent::Upcoming { next: Some(5_000), now: 1_200 }),
        JobAction::WaitThenRun(3_800)
    );
}

#[test]
fn missed_slot_runs_at_once() {
    let mut t = JobTask::new(Some(10));
    assert_eq!(t.step(JobEvent::Begin), JobAction::NextSlot);
    assert_eq!(t.step(JobEvent::Upcoming { next: Some(50), now: 100 }), JobAction::Run);
    assert_eq!(t.step(JobEvent::RunFinished { ok: false, now: 120 }), JobAction::NextSlot);
    assert_eq!(t.last_run, Some(10));
}

#[test]
fn future_slot_is_put_back() {
    let mut t = JobTask::new(Some(10));
    assert_eq!(t.step(JobEvent::Begin), JobAction::NextSlot);
    assert_eq!(t.step(JobEvent::Upcoming { next: Some(500), now: 100 }), JobAction::StepBack);
    assert_eq!(t.step(JobEvent::SteppedBack), JobAction::NextSlot);
    assert_eq!(
        t.step(JobEvent::Upcoming { next: Some(500), now: 110 }),
        JobAction::WaitThenRun(390)
    );
    assert_eq!(t.step(JobEvent::RunFinished { ok: true, now: 505 }), JobAction::Save);
    assert_eq!(t.last_run, Some(505));
}

#[test]
fn slot_at_the_current_time_is_not_missed() {
    let mut t = JobTask::new(Some(10));
    t.step(JobEvent::Begin);
    assert_eq!(t.step(JobEvent::Upcoming { next: Some(100), now: 100 }), JobAction::StepBack);
    t.step(JobEvent::SteppedBack);
    assert_eq!(
        t.step(JobEvent::Upcoming { next: Some(100), now: 100 }),
        JobAction::WaitThenRun(0)
    );
}

#[test]
fn passed_slots_are_skipped() {
    let mut t = JobTask::new(Some(10));
    t.step(JobEvent::Begin);
    t.step(JobEvent::Upcoming { next: Some(500), now: 100 });
    t.step(JobEvent::SteppedBack);
    assert_eq!(t.step(JobEvent::Upcoming { next: Some(90), now: 100 }), JobAction::NextSlot);
    assert_eq!(t.stage, JobStage::Looping);
}

#[test]
fn exhausted_schedule_finishes() {
    let mut t = JobTask::new(Some(10));
    t.step(JobEvent::Begin);
    assert_eq!(t.step(JobEvent::Upcoming { next: None, now: 100 }), JobAction::Finish);
    assert_eq!(t.stage, JobStage::Done);
    assert_eq!(t.step(JobEvent::Begin), JobAction::Finish);
    assert_eq!(t.step(JobEvent::RunFinished { ok: true, now: 7 }), JobAction::Finish);
    assert_eq!(t.last_run, Some(10));
}

#[test]
fn failed_save_ends_with_error() {
    let mut t = JobTask::new(None);
    t.step(JobEvent::Begin);
    t.step(JobEvent::RunFinished { ok: true, now: 3 });
    assert_eq!(t.step(JobEvent::Saved { ok: false }), JobAction::Fail);
    assert_eq!(t.stage, JobStage::Done);
}

#[test]
fn wait_spans_the_whole_time_range() {
    let mut t = JobTask::new(Some(0));
    t.step(JobEvent::Begin);
    t.step(JobEvent::Upcoming { next: Some(i64::MAX), now: i64::MIN });
    t.step(JobEvent::SteppedBack);
    assert_eq!(
        t.step(JobEvent::Upcoming { next: Some(i64::MAX), now: i64::MIN }),
        JobAction::WaitThenRun(u64::MAX)
    );
}
