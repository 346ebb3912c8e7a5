use vstd::prelude::*;
use vstd::string::StringExecFns;
use crate::job::{rows_of, JobState, JobStatus, VideoResult};
use crate::pipeline::PipelineError;

verus! {

/// The labels of a tier list, as plain values.
pub open spec fn labels_of(tiers: Seq<String>) -> Seq<Seq<char>> {
    tiers.map_values(|t: String| t@)
}

/// The locator under which a produced artifact is served.
pub open spec fn locator_view(job_id: Seq<char>, tier: Seq<char>) -> Seq<char> {
    "/videos/"@ + job_id + "/"@ + tier
}

/// Builds the artifact locator for one (job, tier) pair.
pub fn locator_for(job_id: &str, tier: &str) -> (r: String)
    ensures
        r@ == locator_view(job_id@, tier@),
{
    let mut s = String::from_str("/videos/");
    s.append(job_id);
    s.append("/");
    s.append(tier);
    s
}

/// What one tier's pipeline invocation came to, as the orchestrator records
/// it.
pub enum TierOutcome {
    /// No artifact for this tier (the upscaling skip in particular): no
    /// result row, and not a failure.
    Skipped,
    /// The pipeline produced a complete artifact of this size.
    Produced { size_bytes: u64 },
    /// The pipeline failed: the job aborts.
    Failed { error: PipelineError },
}

/// The artifact size an outcome carries (zero when it carries none).
pub open spec fn produced_size(o: TierOutcome) -> u64 {
    match o {
        TierOutcome::Produced { size_bytes } => size_bytes,
        _ => 0,
    }
}

/// The result rows a sequence of tier outcomes accumulates, in request
/// order: one row per produced artifact, none for a skip or a failure.
pub open spec fn run_rows(
    job_id: Seq<char>,
    tiers: Seq<Seq<char>>,
    outs: Seq<TierOutcome>,
) -> Seq<(Seq<char>, Seq<char>, u64)>
    decreases outs.len(),
{
    if outs.len() == 0 {
        Seq::empty()
    } else {
        let prefix = run_rows(job_id, tiers, outs.drop_last());
        let k = outs.len() - 1;
        if outs.last() is Produced {
            prefix.push((tiers[k], locator_view(job_id, tiers[k]), produced_size(outs.last())))
        } else {
            prefix
        }
    }
}

/// The terminal record a finished run commits, as plain values: state,
/// result rows, error message. A run that stops at a failure commits no
/// rows at all; any other finished run commits every accumulated row.
pub open spec fn terminal_view(
    job_id: Seq<char>,
    tiers: Seq<Seq<char>>,
    outs: Seq<TierOutcome>,
) -> (JobState, Seq<(Seq<char>, Seq<char>, u64)>, Option<Seq<char>>) {
    if outs.len() == 0 {
        (JobState::Completed, run_rows(job_id, tiers, outs), None)
    } else {
        match outs.last() {
            TierOutcome::Failed { error } => (
                JobState::Failed,
                Seq::empty(),
                Some(error.spec_message()),
            ),
            _ => (JobState::Completed, run_rows(job_id, tiers, outs), None),
        }
    }
}

/// Drives one job's resolution ladder: runs tiers strictly in request order,
/// accumulates not-yet-committed rows locally, and decides the
/// abort-or-commit policy.
pub struct JobRunner {
    pub job_id: String,
    pub input_url: String,
    /// The requested tier labels, in request order; duplicates and unknown
    /// labels permitted.
    pub tiers: Vec<String>,
    /// Index of the next tier to run.
    pub next_tier: usize,
    /// Local, not-yet-committed result rows.
    pub results: Vec<VideoResult>,
    /// The failure that aborted the ladder, if any.
    pub failure: Option<PipelineError>,
    /// The outcomes recorded so far, in order.
    pub history: Ghost<Seq<TierOutcome>>,
}

impl JobRunner {
    /// The runner's invariant: one recorded outcome per processed tier, a
    /// failure only as the last recorded outcome, and the local rows are
    /// exactly what the history produced, every size positive.
    pub open spec fn wf(self) -> bool {
        &&& self.next_tier <= self.tiers@.len()
        &&& self.history@.len() == self.next_tier
        &&& (self.failure is None ==> forall|i: int|
            0 <= i < self.history@.len() ==> !(#[trigger] self.history@[i] is Failed))
        &&& (self.failure matches Some(e) ==> self.history@.len() > 0 && self.history@.last()
            == (TierOutcome::Failed { error: e }))
        &&& rows_of(self.results@) == run_rows(self.job_id@, labels_of(self.tiers@), self.history@)
        &&& (forall|i: int|
            0 <= i < self.results@.len() ==> #[trigger] self.results@[i].size_bytes > 0)
    }

    /// Done when a failure aborted the ladder or every tier ran.
    pub open spec fn finished(self) -> bool {
        self.failure is Some || self.next_tier == self.tiers@.len()
    }

    /// Accepts one job: no tier processed yet, nothing accumulated.
    pub fn new(job_id: String, input_url: String, tiers: Vec<String>) -> (r: JobRunner)
        ensures
            r.wf(),
            r.job_id == job_id,
            r.input_url == input_url,
            r.tiers == tiers,
            r.next_tier == 0,
            r.results@.len() == 0,
            r.failure is None,
            r.history@ == Seq::<TierOutcome>::empty(),
    {
        let r = JobRunner {
            job_id,
            input_url,
            tiers,
            next_tier: 0,
            results: Vec::new(),
            failure: None,
            history: Ghost(Seq::empty()),
        };
        proof {
            assert(rows_of(r.results@) =~= run_rows(r.job_id@, labels_of(r.tiers@), r.history@));
        }
        r
    }

    /// The record committed at submission, before any transcoding work:
    /// `processing`, no results, no error.
    pub fn initial_record(&self) -> (r: JobStatus)
        ensures
            r.consistent(),
            r.status is Processing,
            r.job_id@ == self.job_id@,
            r.input_url@ == self.input_url@,
            r.results@.len() == 0,
            r.error is None,
    {
        JobStatus {
            job_id: self.job_id.clone(),
            status: JobState::Processing,
            input_url: self.input_url.clone(),
            results: Vec::new(),
            error: None,
        }
    }

    /// Whether the ladder is done (a failure aborted it, or every tier ran).
    pub fn is_finished(&self) -> (r: bool)
        ensures
            r == self.finished(),
    {
        self.failure.is_some() || self.next_tier == self.tiers.len()
    }

    /// The label of the tier to run next, in request order.
    pub fn current_tier(&self) -> (r: Option<&String>)
        requires
            self.wf(),
        ensures
            (r is Some <==> !self.finished()),
            (r matches Some(t) ==> *t == self.tiers@[self.next_tier as int]),
    {
        if self.failure.is_some() {
            None
        } else if self.next_tier < self.tiers.len() {
            Some(&self.tiers[self.next_tier])
        } else {
            None
        }
    }

    /// Records the next tier's outcome: a produced artifact appends its row
    /// to the local list, a skip appends nothing, a failure aborts the
    /// ladder.
    pub fn record_outcome(&mut self, outcome: TierOutcome)
        requires
            old(self).wf(),
            !old(self).finished(),
            (outcome matches TierOutcome::Produced { size_bytes } ==> size_bytes > 0),
        ensures
            final(self).wf(),
            final(self).job_id == old(self).job_id,
            final(self).input_url == old(self).input_url,
            final(self).tiers == old(self).tiers,
            final(self).next_tier == old(self).next_tier + 1,
            final(self).history@ == old(self).history@.push(outcome),
            (final(self).failure is Some <==> outcome is Failed),
            (outcome matches TierOutcome::Failed { error } ==> final(self).failure == Some(
                error,
            )),
    {
        let total = self.tiers.len();
        proof {
            assert(old(self).next_tier < total);
            assert(self.history@.push(outcome).drop_last() =~= self.history@);
        }
        self.history = Ghost(self.history@.push(outcome));
        match outcome {
            TierOutcome::Skipped => {
                self.next_tier = self.next_tier + 1;
            },
            TierOutcome::Produced { size_bytes } => {
                let label = self.tiers[self.next_tier].clone();
                let url = locator_for(self.job_id.as_str(), label.as_str());
                let vr = VideoResult { resolution: label, download_url: url, size_bytes };
                let ghost row = vr.row();
                let ghost old_results = self.results@;
                self.results.push(vr);
                self.next_tier = self.next_tier + 1;
                proof {
                    assert(rows_of(self.results@) =~= rows_of(old_results).push(row));
                }
            },
            TierOutcome::Failed { error } => {
                self.failure = Some(error);
                self.next_tier = self.next_tier + 1;
            },
        }
    }

    /// The terminal record the finished ladder commits: `completed` with the
    /// full local list when every tier ran without pipeline failure;
    /// `failed` with the failure's message and no results otherwise —
    /// already-succeeded tiers are discarded, never partially reported.
    pub fn terminal_record(self) -> (r: JobStatus)
        requires
            self.wf(),
            self.finished(),
        ensures
            r.consistent(),
            !(r.status is Processing),
            r.job_id@ == self.job_id@,
            r.input_url@ == self.input_url@,
            ({
                let tv = terminal_view(self.job_id@, labels_of(self.tiers@), self.history@);
                &&& r.status == tv.0
                &&& rows_of(r.results@) == tv.1
                &&& (match (r.error, tv.2) {
                    (Some(m), Some(vm)) => m@ == vm,
                    (None, None) => true,
                    _ => false,
                })
            }),
    {
        let JobRunner { job_id, input_url, results, failure, .. } = self;
        match failure {
            Some(e) => {
                proof {
                    e.lemma_message_nonempty();
                }
                let msg = e.message();
                let r = JobStatus {
                    job_id,
                    status: JobState::Failed,
                    input_url,
                    results: Vec::new(),
                    error: Some(msg),
                };
                proof {
                    assert(rows_of(r.results@) =~= Seq::empty());
                }
                r
            },
            None => JobStatus {
                job_id,
                status: JobState::Completed,
                input_url,
                results,
                error: None,
            },
        }
    }
}

proof fn lemma_run_rows_all_produced(
    job_id: Seq<char>,
    tiers: Seq<Seq<char>>,
    outs: Seq<TierOutcome>,
)
    requires
        outs.len() <= tiers.len(),
        forall|i: int| 0 <= i < outs.len() ==> #[trigger] outs[i] is Produced,
    ensures
        run_rows(job_id, tiers, outs).len() == outs.len(),
        forall|i: int|
            0 <= i < outs.len() ==> #[trigger] run_rows(job_id, tiers, outs)[i] == (
                tiers[i],
                locator_view(job_id, tiers[i]),
                produced_size(outs[i]),
            ),
    decreases outs.len(),
{
    if outs.len() > 0 {
        lemma_run_rows_all_produced(job_id, tiers, outs.drop_last());
    }
}

/// A skipped tier contributes no result row, and skipping never fails the
/// job.
pub proof fn lemma_skip_adds_no_row(
    job_id: Seq<char>,
    tiers: Seq<Seq<char>>,
    outs: Seq<TierOutcome>,
)
    ensures
        run_rows(job_id, tiers, outs.push(TierOutcome::Skipped)) == run_rows(job_id, tiers, outs),
        !(terminal_view(job_id, tiers, outs.push(TierOutcome::Skipped)).0 is Failed),
{
    assert(outs.push(TierOutcome::Skipped).drop_last() =~= outs);
}

/// Every requested tier produced an artifact of positive size: the job
/// commits `completed`, with one result row per tier, in request order, each
/// carrying that tier's label, its locator, and its positive size; no error.
pub proof fn lemma_all_success_completes(
    job_id: Seq<char>,
    tiers: Seq<Seq<char>>,
    outs: Seq<TierOutcome>,
)
    requires
        outs.len() == tiers.len(),
        forall|i: int|
            0 <= i < outs.len() ==> #[trigger] outs[i] is Produced && produced_size(outs[i]) > 0,
    ensures
        terminal_view(job_id, tiers, outs).0 is Completed,
        terminal_view(job_id, tiers, outs).1.len() == tiers.len(),
        forall|i: int|
            0 <= i < tiers.len() ==> #[trigger] terminal_view(job_id, tiers, outs).1[i] == (
                tiers[i],
                locator_view(job_id, tiers[i]),
                produced_size(outs[i]),
            ) && produced_size(outs[i]) > 0,
        terminal_view(job_id, tiers, outs).2 is None,
{
    lemma_run_rows_all_produced(job_id, tiers, outs);
}

/// All-or-nothing abort: when the ladder stops at a failed tier, the
/// terminal record is `failed`, carries no result rows — tiers that had
/// already succeeded are discarded — and its error message is non-empty.
pub proof fn lemma_failure_discards_results(
    job_id: Seq<char>,
    tiers: Seq<Seq<char>>,
    outs: Seq<TierOutcome>,
)
    requires
        outs.len() > 0,
        outs.last() is Failed,
    ensures
        terminal_view(job_id, tiers, outs).0 is Failed,
        terminal_view(job_id, tiers, outs).1.len() == 0,
        (terminal_view(job_id, tiers, outs).2 matches Some(m) && m.len() > 0),
{
    match outs.last() {
        TierOutcome::Failed { error } => error.lemma_message_nonempty(),
        _ => (),
    }
}

/// A finished ladder never reads `processing`; and when at least one tier
/// was requested and none was skipped or failed, the committed `completed`
/// record's results are non-empty.
pub proof fn lemma_terminal_consistency(
    job_id: Seq<char>,
    tiers: Seq<Seq<char>>,
    outs: Seq<TierOutcome>,
)
    requires
        outs.len() == tiers.len(),
        tiers.len() > 0,
        forall|i: int|
            0 <= i < outs.len() ==> !(#[trigger] outs[i] is Failed) && !(outs[i] is Skipped),
    ensures
        !(terminal_view(job_id, tiers, outs).0 is Processing),
        terminal_view(job_id, tiers, outs).0 is Completed,
        terminal_view(job_id, tiers, outs).1.len() == tiers.len(),
{
    assert(forall|i: int| 0 <= i < outs.len() ==> #[trigger] outs[i] is Produced);
    lemma_run_rows_all_produced(job_id, tiers, outs);
}

} // verus!
