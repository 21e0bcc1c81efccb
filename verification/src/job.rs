//! Tying R to the app on Windows.
//!
//! A job object ends the processes in it when its last handle is closed, which
//! happens at the latest when the app is gone.

use vstd::prelude::*;

verus! {

/// The call that failed.
#[derive(Clone, Copy, Debug, PartialEq, Eq, Structural)]
pub enum JobFailure {
    NotCreated,
    NotLimited,
    NotAssigned,
}

/// What comes next.
#[derive(Clone, Copy, Debug, PartialEq, Eq, Structural)]
pub enum JobStage {
    /// Create the job object.
    Create,
    /// Have the job object end its processes when it is closed.
    Limit,
    /// Put R into the job object.
    Assign,
    /// R ends with the app. The handle is never closed: that would end R.
    Assigned,
    /// R is not tied to the app.
    Failed(JobFailure),
}

/// The stage that follows `stage`, whose call went well or not.
pub open spec fn next_job(stage: JobStage, ok: bool) -> JobStage {
    match stage {
        JobStage::Create => if ok {
            JobStage::Limit
        } else {
            JobStage::Failed(JobFailure::NotCreated)
        },
        JobStage::Limit => if ok {
            JobStage::Assign
        } else {
            JobStage::Failed(JobFailure::NotLimited)
        },
        JobStage::Assign => if ok {
            JobStage::Assigned
        } else {
            JobStage::Failed(JobFailure::NotAssigned)
        },
        _ => stage,
    }
}

/// The stage that follows `stage`, whose call went well or not.
pub fn assign_to_job(stage: JobStage, ok: bool) -> (next: JobStage)
    ensures
        next == next_job(stage, ok),
{
    match (stage, ok) {
        (JobStage::Create, true) => JobStage::Limit,
        (JobStage::Create, false) => JobStage::Failed(JobFailure::NotCreated),
        (JobStage::Limit, true) => JobStage::Assign,
        (JobStage::Limit, false) => JobStage::Failed(JobFailure::NotLimited),
        (JobStage::Assign, true) => JobStage::Assigned,
        (JobStage::Assign, false) => JobStage::Failed(JobFailure::NotAssigned),
        (JobStage::Assigned, _) => JobStage::Assigned,
        (JobStage::Failed(failure), _) => JobStage::Failed(failure),
    }
}

/// The limit flag that has a job object end its processes when its last handle is
/// closed.
pub const KILL_ON_JOB_CLOSE: u32 = 0x2000;

/// The call to make.
#[derive(Clone, Copy, Debug, PartialEq, Eq, Structural)]
pub enum JobAction {
    /// Create a job object, without a name and with the default security.
    Create,
    /// Set the limit flags of the job object, and no other limit.
    SetLimits { flags: u32 },
    /// Put R into the job object.
    AssignProcess,
}

/// The call that a stage makes. Once R is tied to the app, or cannot be, there is none:
/// above all, none that closes the job object.
pub open spec fn stage_call(stage: JobStage) -> Option<JobAction> {
    match stage {
        JobStage::Create => Some(JobAction::Create),
        JobStage::Limit => Some(JobAction::SetLimits { flags: KILL_ON_JOB_CLOSE }),
        JobStage::Assign => Some(JobAction::AssignProcess),
        JobStage::Assigned => None,
        JobStage::Failed(_) => None,
    }
}

/// The call that a stage makes.
pub fn job_action(stage: JobStage) -> (action: Option<JobAction>)
    ensures
        action == stage_call(stage),
{
    match stage {
        JobStage::Create => Some(JobAction::Create),
        JobStage::Limit => Some(JobAction::SetLimits { flags: KILL_ON_JOB_CLOSE }),
        JobStage::Assign => Some(JobAction::AssignProcess),
        JobStage::Assigned => None,
        JobStage::Failed(_) => None,
    }
}

/// The first stage.
pub fn first_call() -> (stage: JobStage)
    ensures
        stage == JobStage::Create,
{
    JobStage::Create
}

/// What the log says about a failure.
pub open spec fn job_failure_text(failure: JobFailure) -> Seq<char> {
    match failure {
        JobFailure::NotCreated => "CreateJobObjectW failed"@,
        JobFailure::NotLimited => "SetInformationJobObject failed"@,
        JobFailure::NotAssigned => "AssignProcessToJobObject failed"@,
    }
}

/// What the log says about a failure.
pub fn job_error(failure: JobFailure) -> (message: &'static str)
    ensures
        message@ == job_failure_text(failure),
{
    match failure {
        JobFailure::NotCreated => "CreateJobObjectW failed",
        JobFailure::NotLimited => "SetInformationJobObject failed",
        JobFailure::NotAssigned => "AssignProcessToJobObject failed",
    }
}

/// The stage after these calls, of each of which is known whether it went well.
pub open spec fn job_after(calls: Seq<bool>) -> JobStage
    decreases calls.len(),
{
    if calls.len() == 0 {
        JobStage::Create
    } else {
        next_job(job_after(calls.drop_last()), calls.last())
    }
}

/// R is tied to the app exactly when all three calls were made and went well.
pub proof fn tied_when_all_calls_went_well(calls: Seq<bool>)
    ensures
        job_after(calls) == JobStage::Assigned <==> calls.len() >= 3 && calls[0] && calls[1]
            && calls[2],
{
    lemma_job(calls);
}

/// The calls are made in this order: the job object is created, it is set to end its
/// processes when it is closed, and only then is R put into it.
pub proof fn r_goes_into_a_limited_job(calls: Seq<bool>)
    requires
        job_after(calls) == JobStage::Assigned,
    ensures
        calls.len() >= 3,
        stage_call(job_after(calls.take(0))) == Some(JobAction::Create),
        stage_call(job_after(calls.take(1))) == Some(
            JobAction::SetLimits { flags: KILL_ON_JOB_CLOSE },
        ),
        calls[1],
        stage_call(job_after(calls.take(2))) == Some(JobAction::AssignProcess),
        calls[2],
{
    lemma_job(calls);
    lemma_job(calls.take(1));
    lemma_job(calls.take(2));
}

/// The stage after these calls, by the first of them that did not go well.
proof fn lemma_job(calls: Seq<bool>)
    ensures
        job_after(calls) == (if calls.len() == 0 {
            JobStage::Create
        } else if !calls[0] {
            JobStage::Failed(JobFailure::NotCreated)
        } else if calls.len() == 1 {
            JobStage::Limit
        } else if !calls[1] {
            JobStage::Failed(JobFailure::NotLimited)
        } else if calls.len() == 2 {
            JobStage::Assign
        } else if !calls[2] {
            JobStage::Failed(JobFailure::NotAssigned)
        } else {
            JobStage::Assigned
        }),
    decreases calls.len(),
{
    if calls.len() > 0 {
        lemma_job(calls.drop_last());
    }
}

/// The first call that does not go well decides what is reported, whatever comes after:
/// each call has a failure of its own.
pub proof fn first_bad_call_is_reported(calls: Seq<bool>, n: int)
    requires
        0 <= n < calls.len(),
        n < 3,
        !calls[n],
        forall|i: int| 0 <= i < n ==> #[trigger] calls[i],
    ensures
        n == 0 ==> job_after(calls) == JobStage::Failed(JobFailure::NotCreated),
        n == 1 ==> job_after(calls) == JobStage::Failed(JobFailure::NotLimited),
        n == 2 ==> job_after(calls) == JobStage::Failed(JobFailure::NotAssigned),
{
    lemma_job(calls);
}

/// A failure is reported under the name of the system call that failed.
pub proof fn failures_are_told_apart(one: JobFailure, other: JobFailure)
    requires
        one != other,
    ensures
        job_failure_text(one) != job_failure_text(other),
{
    reveal_strlit("CreateJobObjectW failed");
    reveal_strlit("SetInformationJobObject failed");
    reveal_strlit("AssignProcessToJobObject failed");
    assert("CreateJobObjectW failed"@[0] == 'C');
    assert("SetInformationJobObject failed"@[0] == 'S');
    assert("AssignProcessToJobObject failed"@[0] == 'A');
}

} // verus!
