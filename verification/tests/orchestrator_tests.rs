use video_processor::job::JobState;
use video_processor::orchestrator::{locator_for, JobRunner, TierOutcome};
use video_processor::pipeline::PipelineError;

fn tiers(labels: &[&str]) -> Vec<String> {
    labels.iter().map(|s| s.to_string()).collect()
}

#[test]
fn locator_is_namespaced_by_job_and_tier() {
    let l = locator_for("job42", "720p");
    assert_eq!(l, "/videos/job42/720p");
}

#[test]
fn initial_record_is_processing_and_empty() {
    let r = JobRunner::new("j1".to_string(), "in.mp4".to_string(), tiers(&["720p"]));
    let st = r.initial_record();
    assert_eq!(st.job_id, "j1");
    assert_eq!(st.input_url, "in.mp4");
    assert_eq!(st.status, JobState::Processing);
    assert!(st.results.is_empty());
    assert!(st.error.is_none());
}

#[test]
fn tiers_run_in_request_order() {
    let mut r = JobRunner::new("j".to_string(), "u".to_string(), tiers(&["720p", "480p"]));
    assert_eq!(r.current_tier().unwrap(), "720p");
    r.record_outcome(TierOutcome::Produced { size_bytes: 10 });
    assert_eq!(r.current_tier().unwrap(), "480p");
    r.record_outcome(TierOutcome::Produced { size_bytes: 20 });
    assert!(r.current_tier().is_none());
    assert!(r.is_finished());
}

#[test]
fn two_successful_tiers_complete_with_ordered_results() {
    let mut r = JobRunner::new("jobA".to_string(), "s.mp4".to_string(), tiers(&["720p", "480p"]));
    r.record_outcome(TierOutcome::Produced { size_bytes: 1111 });
    r.record_outcome(TierOutcome::Produced { size_bytes: 222 });
    assert!(r.is_finished());
    let st = r.terminal_record();
    assert_eq!(st.status, JobState::Completed);
    assert!(st.error.is_none());
    assert_eq!(st.results.len(), 2);
    assert_eq!(st.results[0].resolution, "720p");
    assert_eq!(st.results[0].download_url, "/videos/jobA/720p");
    assert_eq!(st.results[0].size_bytes, 1111);
    assert!(st.results[0].size_bytes > 0);
    assert_eq!(st.results[1].resolution, "480p");
    assert_eq!(st.results[1].download_url, "/videos/jobA/480p");
    assert_eq!(st.results[1].size_bytes, 222);
    assert!(st.results[1].size_bytes > 0);
}

#[test]
fn failure_aborts_remaining_tiers_and_discards_results() {
    let mut r = JobRunner::new(
        "jobB".to_string(),
        "s.mp4".to_string(),
        tiers(&["4K", "1080p", "480p"]),
    );
    // First tier succeeds; the second fails; the third must never run.
    r.record_outcome(TierOutcome::Produced { size_bytes: 999 });
    assert!(!r.is_finished());
    r.record_outcome(TierOutcome::Failed {
        error: PipelineError::EncodeWriteError { detail: "broken pipe".to_string() },
    });
    assert!(r.is_finished());
    assert!(r.current_tier().is_none());
    let st = r.terminal_record();
    assert_eq!(st.status, JobState::Failed);
    assert_eq!(st.results.len(), 0);
    let err = st.error.expect("a failed job carries an error message");
    assert!(!err.is_empty());
    assert_eq!(err, "encode write failed: broken pipe");
}

#[test]
fn skipped_tier_contributes_no_result_and_is_not_a_failure() {
    let mut r = JobRunner::new("jobC".to_string(), "s.mp4".to_string(), tiers(&["4K", "480p"]));
    r.record_outcome(TierOutcome::Skipped);
    assert!(!r.is_finished());
    r.record_outcome(TierOutcome::Produced { size_bytes: 7 });
    let st = r.terminal_record();
    assert_eq!(st.status, JobState::Completed);
    assert_eq!(st.results.len(), 1);
    assert_eq!(st.results[0].resolution, "480p");
}

#[test]
fn all_tiers_skipped_still_completes_with_empty_results() {
    let mut r = JobRunner::new("jobD".to_string(), "s.mp4".to_string(), tiers(&["4K"]));
    r.record_outcome(TierOutcome::Skipped);
    let st = r.terminal_record();
    assert_eq!(st.status, JobState::Completed);
    assert!(st.results.is_empty());
    assert!(st.error.is_none());
}

#[test]
fn empty_ladder_completes_immediately() {
    let r = JobRunner::new("jobE".to_string(), "s.mp4".to_string(), Vec::new());
    assert!(r.is_finished());
    let st = r.terminal_record();
    assert_eq!(st.status, JobState::Completed);
    assert!(st.results.is_empty());
}

#[test]
fn duplicate_labels_are_permitted_and_each_gets_a_row() {
    let mut r = JobRunner::new("jobF".to_string(), "s.mp4".to_string(), tiers(&["480p", "480p"]));
    r.record_outcome(TierOutcome::Produced { size_bytes: 3 });
    r.record_outcome(TierOutcome::Produced { size_bytes: 4 });
    let st = r.terminal_record();
    assert_eq!(st.results.len(), 2);
    assert_eq!(st.results[0].resolution, "480p");
    assert_eq!(st.results[1].resolution, "480p");
}

#[test]
fn terminal_record_is_never_processing() {
    let mut failed = JobRunner::new("a".to_string(), "u".to_string(), tiers(&["720p"]));
    failed.record_outcome(TierOutcome::Failed {
        error: PipelineError::SourceOpenError { detail: "gone".to_string() },
    });
    assert_ne!(failed.terminal_record().status, JobState::Processing);

    let mut done = JobRunner::new("b".to_string(), "u".to_string(), tiers(&["720p"]));
    done.record_outcome(TierOutcome::Produced { size_bytes: 1 });
    assert_ne!(done.terminal_record().status, JobState::Processing);
}

#[test]
fn job_state_labels() {
    assert_eq!(JobState::Processing.as_string(), "processing");
    assert_eq!(JobState::Completed.as_string(), "completed");
    assert_eq!(JobState::Failed.as_string(), "failed");
}
