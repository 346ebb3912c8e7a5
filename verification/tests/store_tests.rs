use video_processor::job::{JobState, JobStatus, VideoResult};
use video_processor::orchestrator::{JobRunner, TierOutcome};
use video_processor::store::JobStore;

fn record(id: &str, state: JobState) -> JobStatus {
    // A failed record always carries a non-empty error message.
    let error = if state == JobState::Failed {
        Some("source open failed: gone".to_string())
    } else {
        None
    };
    JobStatus {
        job_id: id.to_string(),
        status: state,
        input_url: "in.mp4".to_string(),
        results: Vec::new(),
        error,
    }
}

#[test]
fn get_on_empty_store_is_none() {
    let s = JobStore::new();
    assert!(s.get("nope").is_none());
}

#[test]
fn inserted_record_is_returned_verbatim() {
    let mut s = JobStore::new();
    let mut st = record("j1", JobState::Completed);
    st.results.push(VideoResult {
        resolution: "720p".to_string(),
        download_url: "/videos/j1/720p".to_string(),
        size_bytes: 42,
    });
    s.insert(st);
    let got = s.get("j1").expect("record should be present");
    assert_eq!(got.job_id, "j1");
    assert_eq!(got.status, JobState::Completed);
    assert_eq!(got.input_url, "in.mp4");
    assert_eq!(got.results.len(), 1);
    assert_eq!(got.results[0].size_bytes, 42);
    assert!(s.get("j2").is_none());
}

#[test]
fn same_id_overwrites_later_write_wins() {
    let mut s = JobStore::new();
    s.insert(record("dup", JobState::Processing));
    s.insert(record("dup", JobState::Failed));
    let got = s.get("dup").expect("record should be present");
    assert_eq!(got.status, JobState::Failed);
    // No duplicate entry remains.
    assert_eq!(s.entries().len(), 1);
}

#[test]
fn entries_lists_every_job() {
    let mut s = JobStore::new();
    s.insert(record("a", JobState::Processing));
    s.insert(record("b", JobState::Completed));
    s.insert(record("c", JobState::Failed));
    let all = s.entries();
    assert_eq!(all.len(), 3);
    let mut ids: Vec<&str> = all.iter().map(|j| j.job_id.as_str()).collect();
    ids.sort();
    assert_eq!(ids, vec!["a", "b", "c"]);
}

#[test]
fn reader_observes_processing_then_terminal_only() {
    // The store is written exactly twice for a happy-path job: once at
    // creation, once at terminal commit; a reader between the two sees the
    // consistent processing record.
    let mut store = JobStore::new();
    let mut runner = JobRunner::new(
        "job9".to_string(),
        "clip.mp4".to_string(),
        vec!["720p".to_string(), "480p".to_string()],
    );
    store.insert(runner.initial_record());

    let seen = store.get("job9").unwrap();
    assert_eq!(seen.status, JobState::Processing);
    assert!(seen.results.is_empty());
    assert!(seen.error.is_none());

    runner.record_outcome(TierOutcome::Produced { size_bytes: 10 });
    // Mid-job, the store still shows the untouched processing record.
    assert_eq!(store.get("job9").unwrap().status, JobState::Processing);
    assert!(store.get("job9").unwrap().results.is_empty());

    runner.record_outcome(TierOutcome::Produced { size_bytes: 20 });
    store.insert(runner.terminal_record());

    let done = store.get("job9").unwrap();
    assert_eq!(done.status, JobState::Completed);
    assert_eq!(done.results.len(), 2);
    assert_eq!(done.results[0].resolution, "720p");
    assert_eq!(done.results[1].resolution, "480p");
    assert_eq!(store.entries().len(), 1);
}
