//! Background jobs run on a schedule. The decisions of a job's task are
//! taken here: whether a job that never ran, or missed its last slot, runs
//! at once, which slots of the schedule are skipped because they passed,
//! how long to wait for the next one, and when the time of the last run is
//! recorded. The caller reads the schedule and the clock, runs the job and
//! saves the record, and hands back what came of each.
use vstd::prelude::*;

verus! {

/// Where a job's task stands.
#[derive(PartialEq, Eq, Structural, Clone, Copy, Debug)]
pub enum JobStage {
    /// Nothing decided yet.
    Start,
    /// After the first decision: the first upcoming slot is being looked at.
    First,
    /// Waiting for the slots of the schedule, one after another.
    Looping,
    /// The schedule has no more slots, or saving the record failed.
    Done,
}

/// What the caller is asked to do next.
#[derive(PartialEq, Eq, Structural, Clone, Copy, Debug)]
pub enum JobAction {
    /// Run the job now, then report with [`JobEvent::RunFinished`].
    Run,
    /// Take the next slot of the schedule and read the clock, then report
    /// with [`JobEvent::Upcoming`].
    NextSlot,
    /// Put the slot just taken back into the schedule (it is taken again by
    /// the next [`JobAction::NextSlot`]), then report with [`JobEvent::SteppedBack`].
    StepBack,
    /// Sleep for this many milliseconds, then run the job and report with
    /// [`JobEvent::RunFinished`].
    WaitThenRun(u64),
    /// Save the job's record (its last run), then report with [`JobEvent::Saved`].
    Save,
    /// The task ends without error.
    Finish,
    /// The task ends with the error of the failed save.
    Fail,
}

/// What came of the last action. Times are milliseconds since the epoch.
#[derive(PartialEq, Eq, Structural, Clone, Copy, Debug)]
pub enum JobEvent {
    /// The task starts.
    Begin,
    /// The next slot of the schedule (none when it is exhausted) and the
    /// time when it was taken.
    Upcoming { next: Option<i64>, now: i64 },
    /// The slot was put back.
    SteppedBack,
    /// The job ran, successfully or not, and finished at `now`.
    RunFinished { ok: bool, now: i64 },
    /// The record was saved, or saving it failed.
    Saved { ok: bool },
}

/// A job's task: where it stands and when the job last ran successfully.
#[derive(PartialEq, Eq, Structural, Clone, Copy, Debug)]
pub struct JobTask {
    pub stage: JobStage,
    pub last_run: Option<i64>,
}

/// How long from `now` until `at`, when `at` is not in the past.
pub open spec fn wait_spec(at: i64, now: i64) -> int {
    at - now
}

/// The decision for one event: the task afterwards and the action asked.
///
/// A job that never ran runs at once. Otherwise the first slot of the
/// schedule is taken: without one the task ends; a slot already passed
/// means a run was missed and the job runs at once; a slot still ahead is
/// put back. Then the slots are taken one after another: a passed slot is
/// skipped, for a slot ahead the task waits until it comes and runs the job.
/// Each successful run is recorded with its finishing time and saved; a
/// failed run changes nothing; a failed save ends the task with its error.
/// Any event that does not fit the stage ends the task.
pub open spec fn step_spec(t: JobTask, e: JobEvent) -> (JobTask, JobAction) {
    match (t.stage, e) {
        (JobStage::Start, JobEvent::Begin) => if t.last_run is None {
            (t, JobAction::Run)
        } else {
            (JobTask { stage: JobStage::First, ..t }, JobAction::NextSlot)
        },
        (JobStage::First, JobEvent::Upcoming { next, now }) => match next {
            None => (JobTask { stage: JobStage::Done, ..t }, JobAction::Finish),
            Some(at) => if at < now {
                (JobTask { stage: JobStage::Looping, ..t }, JobAction::Run)
            } else {
                (JobTask { stage: JobStage::Looping, ..t }, JobAction::StepBack)
            },
        },
        (JobStage::Looping, JobEvent::SteppedBack) => (t, JobAction::NextSlot),
        (JobStage::Looping, JobEvent::Upcoming { next, now }) => match next {
            None => (JobTask { stage: JobStage::Done, ..t }, JobAction::Finish),
            Some(at) => if at < now {
                (t, JobAction::NextSlot)
            } else {
                (t, JobAction::WaitThenRun(wait_spec(at, now) as u64))
            },
        },
        (JobStage::Start, JobEvent::RunFinished { ok, now }) | (
            JobStage::Looping,
            JobEvent::RunFinished { ok, now },
        ) => if ok {
            (JobTask { stage: JobStage::Looping, last_run: Some(now) }, JobAction::Save)
        } else {
            (JobTask { stage: JobStage::Looping, ..t }, JobAction::NextSlot)
        },
        (JobStage::Looping, JobEvent::Saved { ok }) => if ok {
            (t, JobAction::NextSlot)
        } else {
            (JobTask { stage: JobStage::Done, ..t }, JobAction::Fail)
        },
        (JobStage::Done, _) => (t, JobAction::Finish),
        _ => (JobTask { stage: JobStage::Done, ..t }, JobAction::Finish),
    }
}

impl JobTask {
    /// A task for a job that last ran successfully at `last_run` (never,
    /// when none).
    pub fn new(last_run: Option<i64>) -> (r: Self)
        ensures
            r == (JobTask { stage: JobStage::Start, last_run }),
    {
        JobTask { stage: JobStage::Start, last_run }
    }

    /// Takes the decision for one event (see [`step_spec`]).
    pub fn step(&mut self, e: JobEvent) -> (r: JobAction)
        ensures
            (*final(self), r) == step_spec(*old(self), e),
    {
        let t = *self;
        let (next, action) = match (t.stage, e) {
            (JobStage::Start, JobEvent::Begin) => if t.last_run.is_none() {
                (t, JobAction::Run)
            } else {
                (JobTask { stage: JobStage::First, ..t }, JobAction::NextSlot)
            },
            (JobStage::First, JobEvent::Upcoming { next, now }) => match next {
                None => (JobTask { stage: JobStage::Done, ..t }, JobAction::Finish),
                Some(at) => if at < now {
                    (JobTask { stage: JobStage::Looping, ..t }, JobAction::Run)
                } else {
                    (JobTask { stage: JobStage::Looping, ..t }, JobAction::StepBack)
                },
            },
            (JobStage::Looping, JobEvent::SteppedBack) => (t, JobAction::NextSlot),
            (JobStage::Looping, JobEvent::Upcoming { next, now }) => match next {
                None => (JobTask { stage: JobStage::Done, ..t }, JobAction::Finish),
                Some(at) => if at < now {
                    (t, JobAction::NextSlot)
                } else {
                    let wait = (at as i128 - now as i128) as u64;
                    (t, JobAction::WaitThenRun(wait))
                },
            },
            (JobStage::Start, JobEvent::RunFinished { ok, now }) | (
                JobStage::Looping,
                JobEvent::RunFinished { ok, now },
            ) => if ok {
                (JobTask { stage: JobStage::Looping, last_run: Some(now) }, JobAction::Save)
            } else {
                (JobTask { stage: JobStage::Looping, ..t }, JobAction::NextSlot)
            },
            (JobStage::Looping, JobEvent::Saved { ok }) => if ok {
                (t, JobAction::NextSlot)
            } else {
                (JobTask { stage: JobStage::Done, ..t }, JobAction::Fail)
            },
            (JobStage::Done, _) => (t, JobAction::Finish),
            _ => (JobTask { stage: JobStage::Done, ..t }, JobAction::Finish),
        };
        *self = next;
        action
    }
}

/// Law: a task that has ended stays ended, whatever it is told.
pub proof fn lemma_done_is_final(t: JobTask, e: JobEvent)
    requires
        t.stage == JobStage::Done,
    ensures
        step_spec(t, e) == (t, JobAction::Finish),
{
}

/// Law: the time of the last run changes only when a run succeeded, and
/// then becomes the time that run finished; a record to save is asked for
/// exactly then.
pub proof fn lemma_last_run_only_on_success(t: JobTask, e: JobEvent)
    requires
        t.stage != JobStage::Done,
    ensures
        (step_spec(t, e).0.last_run != t.last_run || step_spec(t, e).1 == JobAction::Save) ==> (
        e matches JobEvent::RunFinished { ok, now } && ok && step_spec(t, e).0.last_run == Some(now)
            && step_spec(t, e).1 == JobAction::Save),
        (t.stage == JobStage::Start || t.stage == JobStage::Looping) ==> (
        e matches JobEvent::RunFinished { ok, now } ==> (ok ==> step_spec(t, e).0.last_run == Some(
            now,
        ))),
{
}

/// Law: the job is never made to wait for a slot that has passed: a wait is
/// asked only for the slot just taken, and lasts exactly until it.
pub proof fn lemma_waits_until_slot(t: JobTask, e: JobEvent)
    ensures
        step_spec(t, e).1 matches JobAction::WaitThenRun(ms) ==> (e matches JobEvent::Upcoming {
            next,
            now,
        } && next matches Some(at) && now <= at && ms == at - now),
{
}


/// Whether an event is one a stage waits for: a task that starts waits for
/// the start or, after a first run, its outcome; one looking at the first
/// slot waits for that slot; one that loops waits for a slot, a slot put
/// back, a run's outcome or a save's outcome.
pub open spec fn expected(stage: JobStage, e: JobEvent) -> bool {
    match (stage, e) {
        (JobStage::Start, JobEvent::Begin) => true,
        (JobStage::Start, JobEvent::RunFinished { .. }) => true,
        (JobStage::First, JobEvent::Upcoming { .. }) => true,
        (JobStage::Looping, JobEvent::Upcoming { .. }) => true,
        (JobStage::Looping, JobEvent::SteppedBack) => true,
        (JobStage::Looping, JobEvent::RunFinished { .. }) => true,
        (JobStage::Looping, JobEvent::Saved { .. }) => true,
        _ => false,
    }
}

/// Whether an event says the schedule has no more slots.
pub open spec fn schedule_exhausted(e: JobEvent) -> bool {
    match e {
        JobEvent::Upcoming { next, .. } => next is None,
        _ => false,
    }
}

/// Whether an event says saving the task's record failed.
pub open spec fn save_failed(e: JobEvent) -> bool {
    match e {
        JobEvent::Saved { ok } => !ok,
        _ => false,
    }
}

/// Law: a failed run never ends a task: the run is not recorded, and the
/// task goes on to the next slot of its schedule. A task ends only when its
/// schedule has no more slots, when saving its record failed (the one case
/// that ends it with an error), or when told something it was not waiting
/// for.
pub proof fn lemma_failed_run_goes_on(t: JobTask, now: i64, e: JobEvent)
    ensures
        (t.stage == JobStage::Start || t.stage == JobStage::Looping) ==> step_spec(
            t,
            JobEvent::RunFinished { ok: false, now },
        ) == (JobTask { stage: JobStage::Looping, ..t }, JobAction::NextSlot),
        t.stage != JobStage::Done && step_spec(t, e).0.stage == JobStage::Done ==> schedule_exhausted(e)
            || save_failed(e) || !expected(t.stage, e),
        t.stage != JobStage::Done && expected(t.stage, e) && !schedule_exhausted(e) && !save_failed(e)
            ==> step_spec(t, e).0.stage != JobStage::Done,
        step_spec(t, e).1 == JobAction::Fail ==> save_failed(e),
{
}

} // verus!
