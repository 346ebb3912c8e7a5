use video_processor::pipeline::{
    Pipeline, PipelineAction, PipelineError, PipelineEvent, PipelineOutcome,
};

fn outcome(p: &Pipeline) -> &PipelineOutcome {
    p.outcome.as_ref().expect("pipeline should be finished")
}

#[test]
fn full_cycle_produces_output() {
    let mut p = Pipeline::new("1080p");
    let a = p.step(PipelineEvent::SourceOpened { width: 1920, height: 1080 });
    assert_eq!(a, PipelineAction::ConfigureOutput { width: 1920, height: 1080 });
    let a = p.step(PipelineEvent::OutputReady);
    assert_eq!(a, PipelineAction::WriteHeaderNow);
    let a = p.step(PipelineEvent::HeaderWritten);
    assert_eq!(a, PipelineAction::ConfigureScaler { width: 1920, height: 1080 });
    let a = p.step(PipelineEvent::ScalerReady);
    assert_eq!(a, PipelineAction::NextPacket);
    let a = p.step(PipelineEvent::FrameDecoded);
    assert_eq!(a, PipelineAction::EncodeFrame { pts: 0 });
    let a = p.step(PipelineEvent::FrameWritten);
    assert_eq!(a, PipelineAction::NextPacket);
    let a = p.step(PipelineEvent::FrameDecoded);
    assert_eq!(a, PipelineAction::EncodeFrame { pts: 1 });
    let a = p.step(PipelineEvent::FrameWritten);
    assert_eq!(a, PipelineAction::NextPacket);
    let a = p.step(PipelineEvent::InputEnded);
    assert_eq!(a, PipelineAction::DrainPacket);
    let a = p.step(PipelineEvent::DrainedPacketWritten);
    assert_eq!(a, PipelineAction::DrainPacket);
    let a = p.step(PipelineEvent::DrainEnded);
    assert_eq!(a, PipelineAction::WriteTrailerNow);
    let a = p.step(PipelineEvent::TrailerWritten);
    assert_eq!(a, PipelineAction::Done);
    assert!(matches!(outcome(&p), PipelineOutcome::Produced));
}

#[test]
fn timestamps_increase_monotonically_and_dropped_packets_do_not_count() {
    let mut p = Pipeline::new("480p");
    p.step(PipelineEvent::SourceOpened { width: 854, height: 480 });
    p.step(PipelineEvent::OutputReady);
    p.step(PipelineEvent::HeaderWritten);
    p.step(PipelineEvent::ScalerReady);
    let mut expected_pts: i64 = 0;
    for decode_ok in [true, true, false, true, false, true] {
        if decode_ok {
            let a = p.step(PipelineEvent::FrameDecoded);
            assert_eq!(a, PipelineAction::EncodeFrame { pts: expected_pts });
            expected_pts += 1;
            let a = p.step(PipelineEvent::FrameWritten);
            assert_eq!(a, PipelineAction::NextPacket);
        } else {
            // A failed decode is dropped silently; processing continues.
            let a = p.step(PipelineEvent::PacketDropped);
            assert_eq!(a, PipelineAction::NextPacket);
        }
    }
    assert_eq!(expected_pts, 4);
    p.step(PipelineEvent::InputEnded);
    p.step(PipelineEvent::DrainEnded);
    let a = p.step(PipelineEvent::TrailerWritten);
    assert_eq!(a, PipelineAction::Done);
    assert!(matches!(outcome(&p), PipelineOutcome::Produced));
}

#[test]
fn upscale_is_skipped_without_output() {
    let mut p = Pipeline::new("4K");
    // Source is smaller than the 4K target in both axes.
    let a = p.step(PipelineEvent::SourceOpened { width: 1280, height: 720 });
    assert_eq!(a, PipelineAction::Done);
    assert!(matches!(outcome(&p), PipelineOutcome::Skipped));
}

#[test]
fn upscale_in_one_axis_is_enough_to_skip() {
    let mut p = Pipeline::new("1080p");
    let a = p.step(PipelineEvent::SourceOpened { width: 1920, height: 800 });
    assert_eq!(a, PipelineAction::Done);
    assert!(matches!(outcome(&p), PipelineOutcome::Skipped));
}

#[test]
fn exact_match_source_is_transcoded_at_source_dimensions() {
    let mut p = Pipeline::new("720p");
    let a = p.step(PipelineEvent::SourceOpened { width: 1280, height: 720 });
    assert_eq!(a, PipelineAction::ConfigureOutput { width: 1280, height: 720 });
}

#[test]
fn unknown_label_pipeline_targets_fallback_dimensions() {
    let mut p = Pipeline::new("9000p");
    let a = p.step(PipelineEvent::SourceOpened { width: 1920, height: 1080 });
    assert_eq!(a, PipelineAction::ConfigureOutput { width: 854, height: 480 });
}

#[test]
fn source_failure_maps_to_source_open_error() {
    let mut p = Pipeline::new("480p");
    let a = p.step(PipelineEvent::SourceFailed { detail: "boom".to_string() });
    assert_eq!(a, PipelineAction::Done);
    match outcome(&p) {
        PipelineOutcome::Failed { error } => {
            assert!(matches!(error, PipelineError::SourceOpenError { .. }));
            assert_eq!(error.message(), "source open failed: boom");
        },
        _ => panic!("expected a failure"),
    }
}

#[test]
fn encoder_failure_maps_to_encoder_init_error() {
    let mut p = Pipeline::new("480p");
    p.step(PipelineEvent::SourceOpened { width: 1920, height: 1080 });
    p.step(PipelineEvent::OutputFailed { detail: "no codec".to_string() });
    match outcome(&p) {
        PipelineOutcome::Failed { error } => {
            assert_eq!(error.message(), "encoder init failed: no codec");
        },
        _ => panic!("expected a failure"),
    }
}

#[test]
fn header_failure_maps_to_mux_init_error() {
    let mut p = Pipeline::new("480p");
    p.step(PipelineEvent::SourceOpened { width: 1920, height: 1080 });
    p.step(PipelineEvent::OutputReady);
    p.step(PipelineEvent::HeaderFailed { detail: "disk full".to_string() });
    match outcome(&p) {
        PipelineOutcome::Failed { error } => {
            assert_eq!(error.message(), "mux init failed: disk full");
        },
        _ => panic!("expected a failure"),
    }
}

#[test]
fn scaler_failure_maps_to_scale_error() {
    let mut p = Pipeline::new("480p");
    p.step(PipelineEvent::SourceOpened { width: 1920, height: 1080 });
    p.step(PipelineEvent::OutputReady);
    p.step(PipelineEvent::HeaderWritten);
    p.step(PipelineEvent::ScalerFailed { detail: "bad format".to_string() });
    match outcome(&p) {
        PipelineOutcome::Failed { error } => {
            assert_eq!(error.message(), "scaling failed: bad format");
        },
        _ => panic!("expected a failure"),
    }
}

#[test]
fn write_failure_while_streaming_maps_to_encode_write_error() {
    let mut p = Pipeline::new("480p");
    p.step(PipelineEvent::SourceOpened { width: 1920, height: 1080 });
    p.step(PipelineEvent::OutputReady);
    p.step(PipelineEvent::HeaderWritten);
    p.step(PipelineEvent::ScalerReady);
    p.step(PipelineEvent::FrameDecoded);
    p.step(PipelineEvent::WriteFailed { detail: "io".to_string() });
    match outcome(&p) {
        PipelineOutcome::Failed { error } => {
            assert_eq!(error.message(), "encode write failed: io");
        },
        _ => panic!("expected a failure"),
    }
}

#[test]
fn trailer_failure_maps_to_mux_error() {
    let mut p = Pipeline::new("480p");
    p.step(PipelineEvent::SourceOpened { width: 1920, height: 1080 });
    p.step(PipelineEvent::OutputReady);
    p.step(PipelineEvent::HeaderWritten);
    p.step(PipelineEvent::ScalerReady);
    p.step(PipelineEvent::InputEnded);
    p.step(PipelineEvent::DrainEnded);
    p.step(PipelineEvent::TrailerFailed { detail: "index".to_string() });
    match outcome(&p) {
        PipelineOutcome::Failed { error } => {
            assert_eq!(error.message(), "mux failed: index");
        },
        _ => panic!("expected a failure"),
    }
}

#[test]
fn frame_scale_failure_is_fatal() {
    let mut p = Pipeline::new("480p");
    p.step(PipelineEvent::SourceOpened { width: 1920, height: 1080 });
    p.step(PipelineEvent::OutputReady);
    p.step(PipelineEvent::HeaderWritten);
    p.step(PipelineEvent::ScalerReady);
    p.step(PipelineEvent::FrameDecoded);
    let a = p.step(PipelineEvent::FrameScaleFailed { detail: "sws".to_string() });
    assert_eq!(a, PipelineAction::Done);
    match outcome(&p) {
        PipelineOutcome::Failed { error } => {
            assert_eq!(error.message(), "scaling failed: sws");
        },
        _ => panic!("expected a failure"),
    }
}
