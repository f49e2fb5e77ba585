//! The job phase state machine shared by Spark and Flink jobs.

use vstd::prelude::*;

use crate::error::CrucibleError;

verus! {

/// The lifecycle phase of a Spark or Flink job.
#[derive(Debug, Clone, Copy, PartialEq, Eq, Structural)]
pub enum JobPhase {
    Submitted,
    Running,
    Completed,
    Failed,
    Killed,
    /// Flink-only: job is suspended with a savepoint.
    Suspended,
    /// Flink-only: job was cancelled.
    Cancelled,
}

impl JobPhase {
    /// Terminal phases: the job will not run again.
    pub open spec fn terminal(self) -> bool {
        self is Completed || self is Failed || self is Killed || self is Cancelled
    }

    /// The transition relation of the state machine.
    pub open spec fn allows(self, next: JobPhase) -> bool {
        match self {
            JobPhase::Submitted => next is Running || next is Failed || next is Killed,
            JobPhase::Running => next is Completed || next is Failed || next is Killed
                || next is Suspended || next is Cancelled,
            JobPhase::Suspended => next is Running || next is Failed || next is Cancelled,
            JobPhase::Completed | JobPhase::Failed | JobPhase::Killed | JobPhase::Cancelled => false,
        }
    }

    /// The upper-case name under which the phase is displayed.
    pub open spec fn label(self) -> Seq<char> {
        match self {
            JobPhase::Submitted => "SUBMITTED"@,
            JobPhase::Running => "RUNNING"@,
            JobPhase::Completed => "COMPLETED"@,
            JobPhase::Failed => "FAILED"@,
            JobPhase::Killed => "KILLED"@,
            JobPhase::Suspended => "SUSPENDED"@,
            JobPhase::Cancelled => "CANCELLED"@,
        }
    }

    /// The displayed name of the phase (`SUBMITTED`, `RUNNING`, ...).
    pub fn to_display_string(&self) -> (s: String)
        ensures
            s@ == self.label(),
    {
        match self {
            JobPhase::Submitted => String::from_str("SUBMITTED"),
            JobPhase::Running => String::from_str("RUNNING"),
            JobPhase::Completed => String::from_str("COMPLETED"),
            JobPhase::Failed => String::from_str("FAILED"),
            JobPhase::Killed => String::from_str("KILLED"),
            JobPhase::Suspended => String::from_str("SUSPENDED"),
            JobPhase::Cancelled => String::from_str("CANCELLED"),
        }
    }

    /// Whether the phase is terminal (completed, failed, killed or cancelled).
    pub fn is_terminal(&self) -> (b: bool)
        ensures
            b == self.terminal(),
    {
        match self {
            JobPhase::Completed | JobPhase::Failed | JobPhase::Killed | JobPhase::Cancelled => true,
            _ => false,
        }
    }

    /// Validates a transition from this phase to `next`; a refused
    /// transition is reported with both phases' displayed names.
    pub fn validate_transition(&self, next: &JobPhase) -> (r: Result<(), CrucibleError>)
        ensures
            r is Ok <==> self.allows(*next),
            r is Err ==> (r->Err_0 matches CrucibleError::InvalidTransition { from, to }
                && from@ == self.label() && to@ == next.label()),
    {
        let valid = match self {
            JobPhase::Submitted => match next {
                JobPhase::Running | JobPhase::Failed | JobPhase::Killed => true,
                _ => false,
            },
            JobPhase::Running => match next {
                JobPhase::Completed | JobPhase::Failed | JobPhase::Killed | JobPhase::Suspended
                | JobPhase::Cancelled => true,
                _ => false,
            },
            JobPhase::Suspended => match next {
                JobPhase::Running | JobPhase::Failed | JobPhase::Cancelled => true,
                _ => false,
            },
            JobPhase::Completed | JobPhase::Failed | JobPhase::Killed | JobPhase::Cancelled => false,
        };
        if valid {
            Ok(())
        } else {
            Err(CrucibleError::InvalidTransition {
                from: self.to_display_string(),
                to: next.to_display_string(),
            })
        }
    }
}

/// A terminal phase allows no transition at all.
pub proof fn lemma_terminal_is_final(p: JobPhase, q: JobPhase)
    requires
        p.terminal(),
    ensures
        !p.allows(q),
{
}

/// No phase leads back to `Submitted`, and no phase leads to itself.
pub proof fn lemma_no_backward_or_self_transition(p: JobPhase)
    ensures
        !p.allows(JobPhase::Submitted),
        !p.allows(p),
{
}

/// Every phase that is not terminal may fail, and an active job
/// (submitted or running) may be killed.
pub proof fn lemma_active_jobs_can_stop(p: JobPhase)
    ensures
        !p.terminal() ==> p.allows(JobPhase::Failed),
        (p is Submitted || p is Running) ==> p.allows(JobPhase::Killed),
{
}

/// Only a running job completes, and only a running job is suspended.
pub proof fn lemma_completion_and_suspension_need_running(p: JobPhase)
    ensures
        p.allows(JobPhase::Completed) ==> p is Running,
        p.allows(JobPhase::Suspended) ==> p is Running,
{
}

/// Distinct phases have distinct displayed names.
pub proof fn lemma_labels_distinct(p: JobPhase, q: JobPhase)
    requires
        p != q,
    ensures
        p.label() != q.label(),
{
    reveal_strlit("SUBMITTED");
    reveal_strlit("RUNNING");
    reveal_strlit("COMPLETED");
    reveal_strlit("FAILED");
    reveal_strlit("KILLED");
    reveal_strlit("SUSPENDED");
    reveal_strlit("CANCELLED");
    if p.label().len() == q.label().len() {
        assert(p.label()[0] != q.label()[0] || p.label()[1] != q.label()[1] || p.label()[2] != q.label()[2]);
    }
}


/// A job that has run (running or suspended) may be cancelled; a job that
/// has not started, or has finished, may not.
pub proof fn lemma_cancellation(p: JobPhase)
    ensures
        p.allows(JobPhase::Cancelled) <==> (p is Running || p is Suspended),
{
}

/// From `Running` a job may end in any terminal phase or be suspended,
/// and go nowhere else.
pub proof fn lemma_running_exits(q: JobPhase)
    ensures
        JobPhase::Running.allows(q) <==> (q.terminal() || q is Suspended),
{
}

/// A suspended job may resume, or end by failing or being cancelled; it
/// cannot complete or be killed, and a submitted job can only start, fail
/// or be killed.
pub proof fn lemma_suspended_and_submitted_exits(q: JobPhase)
    ensures
        JobPhase::Suspended.allows(q) <==> (q is Running || (q.terminal() && !(q is Completed) && !(q is Killed))),
        JobPhase::Submitted.allows(q) <==> (q is Running || (q.terminal() && !(q is Completed) && !(q is Cancelled))),
{
}

} // verus!
