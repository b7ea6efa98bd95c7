//! The lifecycle states of a remote analysis job and their wire form.

use vstd::prelude::*;

verus! {

/// The five states a remote job may be in. The remote service alone moves a
/// job between states; the client only observes them through repeated reads.
#[derive(Copy, Clone, Debug, PartialEq, Eq, Structural)]
pub enum JobStatus {
    Queued,
    Running,
    Cancelled,
    Completed,
    Failed,
}

/// The wire form of a status: its name in lowercase.
pub open spec fn spec_wire_name(s: JobStatus) -> Seq<char> {
    match s {
        JobStatus::Queued => "queued"@,
        JobStatus::Running => "running"@,
        JobStatus::Cancelled => "cancelled"@,
        JobStatus::Completed => "completed"@,
        JobStatus::Failed => "failed"@,
    }
}

/// Which status a wire string denotes, if any.
pub open spec fn spec_status_of_wire(s: Seq<char>) -> Option<JobStatus> {
    if s == "queued"@ {
        Some(JobStatus::Queued)
    } else if s == "running"@ {
        Some(JobStatus::Running)
    } else if s == "cancelled"@ {
        Some(JobStatus::Cancelled)
    } else if s == "completed"@ {
        Some(JobStatus::Completed)
    } else if s == "failed"@ {
        Some(JobStatus::Failed)
    } else {
        None
    }
}

impl JobStatus {
    /// A status is ready when further polling cannot change the job's outcome.
    pub fn is_ready(&self) -> (r: bool)
        ensures
            r == (*self == JobStatus::Completed || *self == JobStatus::Failed),
    {
        match *self {
            JobStatus::Completed => true,
            JobStatus::Failed => true,
            _ => false,
        }
    }

    /// A status is successful exactly when the job completed.
    pub fn is_success(&self) -> (r: bool)
        ensures
            r == (*self == JobStatus::Completed),
    {
        match *self {
            JobStatus::Completed => true,
            _ => false,
        }
    }

    /// Serialize this status to its wire form.
    pub fn wire_name(&self) -> (r: &'static str)
        ensures
            r@ == spec_wire_name(*self),
    {
        match *self {
            JobStatus::Queued => "queued",
            JobStatus::Running => "running",
            JobStatus::Cancelled => "cancelled",
            JobStatus::Completed => "completed",
            JobStatus::Failed => "failed",
        }
    }

    /// Parse a wire string back into a status.
    pub fn from_wire(s: &str) -> (r: Option<JobStatus>)
        ensures
            r == spec_status_of_wire(s@),
    {
        let o = s.to_owned();
        if o == "queued".to_owned() {
            Some(JobStatus::Queued)
        } else if o == "running".to_owned() {
            Some(JobStatus::Running)
        } else if o == "cancelled".to_owned() {
            Some(JobStatus::Cancelled)
        } else if o == "completed".to_owned() {
            Some(JobStatus::Completed)
        } else if o == "failed".to_owned() {
            Some(JobStatus::Failed)
        } else {
            None
        }
    }
}

/// Writing a status to the wire and reading it back yields the same status.
pub proof fn lemma_wire_round_trip(s: JobStatus)
    ensures
        spec_status_of_wire(spec_wire_name(s)) == Some(s),
{
    reveal_strlit("queued");
    reveal_strlit("running");
    reveal_strlit("cancelled");
    reveal_strlit("completed");
    reveal_strlit("failed");
    assert("queued"@.len() == 6);
    assert("running"@.len() == 7);
    assert("cancelled"@.len() == 9);
    assert("completed"@.len() == 9);
    assert("failed"@.len() == 6);
    assert("cancelled"@[1] == 'a' && "completed"@[1] == 'o');
    assert("queued"@[0] == 'q' && "failed"@[0] == 'f');
}

} // verus!
