use vstd::prelude::*;
use vstd::string::StringExecFns;

verus! {

/// Lifecycle state of a job: it enters `Processing` at acceptance and moves
/// to exactly one terminal state, never revisited.
#[derive(Clone, Copy, PartialEq, Eq, Structural, Debug)]
pub enum JobState {
    /// Accepted; the ladder is still running.
    Processing,
    /// Every tier ran without pipeline failure; results are committed.
    Completed,
    /// Some tier's pipeline failed; the job aborted.
    Failed,
}

impl JobState {
    /// The state's wire label.
    pub open spec fn spec_label(self) -> Seq<char> {
        match self {
            JobState::Processing => "processing"@,
            JobState::Completed => "completed"@,
            JobState::Failed => "failed"@,
        }
    }

    /// Renders the wire label.
    pub fn as_string(&self) -> (r: String)
        ensures
            r@ == self.spec_label(),
    {
        match self {
            JobState::Processing => String::from_str("processing"),
            JobState::Completed => String::from_str("completed"),
            JobState::Failed => String::from_str("failed"),
        }
    }
}

/// One row per successfully produced artifact: tier label, retrieval
/// locator, artifact size in bytes. Never partially populated.
#[derive(Debug, Clone)]
pub struct VideoResult {
    pub resolution: String,
    pub download_url: String,
    pub size_bytes: u64,
}

impl VideoResult {
    /// The row as plain values: label, locator, size.
    pub open spec fn row(self) -> (Seq<char>, Seq<char>, u64) {
        (self.resolution@, self.download_url@, self.size_bytes)
    }
}

/// The rows of a result list, as plain values, in order.
pub open spec fn rows_of(s: Seq<VideoResult>) -> Seq<(Seq<char>, Seq<char>, u64)> {
    s.map_values(|r: VideoResult| r.row())
}

/// The point-in-time record of one job, as any status reader observes it.
#[derive(Debug, Clone)]
pub struct JobStatus {
    pub job_id: String,
    pub status: JobState,
    pub input_url: String,
    pub results: Vec<VideoResult>,
    pub error: Option<String>,
}

impl JobStatus {
    /// Self-consistency of a record: a job still processing shows no results
    /// and no error; a completed one shows no error; a failed one shows no
    /// results and a non-empty error; every recorded artifact has a positive
    /// size.
    pub open spec fn consistent(self) -> bool {
        &&& (self.status is Processing ==> self.results@.len() == 0 && self.error is None)
        &&& (self.status is Completed ==> self.error is None)
        &&& (self.status is Failed ==> self.results@.len() == 0 && (self.error matches Some(e)
            && e@.len() > 0))
        &&& (forall|i: int| 0 <= i < self.results@.len() ==> self.results@[i].size_bytes > 0)
    }
}

} // verus!
