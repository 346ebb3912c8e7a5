use vstd::prelude::*;
use vstd::string::StringExecFns;
use crate::resolver::{Resolution, resolve_target, should_skip, spec_resolve, spec_skip};

verus! {

/// A structured pipeline failure, carrying the failing stage's detail text.
#[derive(Debug, Clone)]
pub enum PipelineError {
    /// The source was unreadable, an unsupported container, or had no video
    /// stream or decoder.
    SourceOpenError { detail: String },
    /// The destination container or the fixed-codec encoder could not be set
    /// up.
    EncoderInitError { detail: String },
    /// The container header could not be written.
    MuxInitError { detail: String },
    /// The scaling context could not be built, or scaling a frame failed.
    ScaleError { detail: String },
    /// Encoding a frame or interleaving an encoded packet failed.
    EncodeWriteError { detail: String },
    /// The container trailer could not be written.
    MuxError { detail: String },
}

impl PipelineError {
    /// The descriptive message recorded on a failed job: a stage prefix
    /// followed by the stage's detail text.
    pub open spec fn spec_message(self) -> Seq<char> {
        match self {
            PipelineError::SourceOpenError { detail } => "source open failed: "@ + detail@,
            PipelineError::EncoderInitError { detail } => "encoder init failed: "@ + detail@,
            PipelineError::MuxInitError { detail } => "mux init failed: "@ + detail@,
            PipelineError::ScaleError { detail } => "scaling failed: "@ + detail@,
            PipelineError::EncodeWriteError { detail } => "encode write failed: "@ + detail@,
            PipelineError::MuxError { detail } => "mux failed: "@ + detail@,
        }
    }

    /// Renders the message.
    pub fn message(&self) -> (r: String)
        ensures
            r@ == self.spec_message(),
    {
        match self {
            PipelineError::SourceOpenError { detail } => {
                let mut s = String::from_str("source open failed: ");
                s.append(detail.as_str());
                s
            },
            PipelineError::EncoderInitError { detail } => {
                let mut s = String::from_str("encoder init failed: ");
                s.append(detail.as_str());
                s
            },
            PipelineError::MuxInitError { detail } => {
                let mut s = String::from_str("mux init failed: ");
                s.append(detail.as_str());
                s
            },
            PipelineError::ScaleError { detail } => {
                let mut s = String::from_str("scaling failed: ");
                s.append(detail.as_str());
                s
            },
            PipelineError::EncodeWriteError { detail } => {
                let mut s = String::from_str("encode write failed: ");
                s.append(detail.as_str());
                s
            },
            PipelineError::MuxError { detail } => {
                let mut s = String::from_str("mux failed: ");
                s.append(detail.as_str());
                s
            },
        }
    }

    /// A pipeline failure's message is never empty.
    pub proof fn lemma_message_nonempty(self)
        ensures
            self.spec_message().len() > 0,
    {
        reveal_strlit("source open failed: ");
        reveal_strlit("encoder init failed: ");
        reveal_strlit("mux init failed: ");
        reveal_strlit("scaling failed: ");
        reveal_strlit("encode write failed: ");
        reveal_strlit("mux failed: ");
    }
}

/// How one pipeline invocation ended.
#[derive(Debug, Clone)]
pub enum PipelineOutcome {
    /// The tier was skipped under the upscaling policy: a success, but no
    /// output file was written.
    Skipped,
    /// The full cycle ran: the output location holds a complete container at
    /// the target dimensions.
    Produced,
    /// A fatal stage failure; a partial output file may remain.
    Failed { error: PipelineError },
}

/// Where the pipeline stands in the demux/decode/scale/encode/mux cycle.
#[derive(Clone, Copy, PartialEq, Eq, Structural, Debug)]
pub enum PipelineStage {
    /// Waiting for the source container to be opened and probed.
    ProbeSource,
    /// Waiting for the destination container and encoder to be constructed.
    OpenOutput,
    /// Waiting for the container header write.
    WriteHeader,
    /// Waiting for the scaling context.
    InitScaler,
    /// The per-packet stream loop.
    Streaming,
    /// End of input: draining buffered encoder packets.
    Draining,
    /// Waiting for the container trailer write.
    WriteTrailer,
    /// Terminal: the outcome is set.
    Finished,
}

/// What the driver reports back after carrying out the previous action.
pub enum PipelineEvent {
    /// The source opened and its best video stream was found; these are the
    /// decoder's native dimensions.
    SourceOpened { width: u32, height: u32 },
    /// The source could not be opened or decoded.
    SourceFailed { detail: String },
    /// Destination container and encoder are ready.
    OutputReady,
    /// Destination container or encoder setup failed.
    OutputFailed { detail: String },
    /// The container header was written.
    HeaderWritten,
    /// The container header write failed.
    HeaderFailed { detail: String },
    /// The scaling context is ready.
    ScalerReady,
    /// The scaling context could not be built.
    ScalerFailed { detail: String },
    /// A packet of the selected video stream decoded into a frame.
    FrameDecoded,
    /// A packet of another stream, or one whose decode failed: dropped
    /// silently, processing continues.
    PacketDropped,
    /// The frame just handed out was scaled, encoded, and any emitted packet
    /// interleaved.
    FrameWritten,
    /// Scaling the current frame failed (fatal).
    FrameScaleFailed { detail: String },
    /// Encoding or interleaving failed (fatal).
    WriteFailed { detail: String },
    /// The demuxer is exhausted.
    InputEnded,
    /// One buffered encoder packet was drained and interleaved.
    DrainedPacketWritten,
    /// The encoder holds no more buffered packets.
    DrainEnded,
    /// The container trailer was written.
    TrailerWritten,
    /// The container trailer write failed.
    TrailerFailed { detail: String },
}

/// What the driver must do next.
#[derive(Clone, Copy, PartialEq, Eq, Structural, Debug)]
pub enum PipelineAction {
    /// Open and probe the source container; locate the best video stream and
    /// open its decoder.
    OpenSource,
    /// Construct the destination container and a video encoder at exactly
    /// these dimensions, with the fixed codec, planar YUV 4:2:0, the fixed
    /// 30 fps timebase, and the fixed quality constants.
    ConfigureOutput { width: u32, height: u32 },
    /// Write the container header, before any frame.
    WriteHeaderNow,
    /// Construct the scaler from the decoder's native format and size to
    /// these target dimensions, with bilinear interpolation.
    ConfigureScaler { width: u32, height: u32 },
    /// Demux the next packet; decode it if it belongs to the selected stream.
    NextPacket,
    /// Scale the decoded frame into a target-sized buffer and encode it with
    /// this presentation timestamp; interleave any packet the encoder emits
    /// on the single output stream.
    EncodeFrame { pts: i64 },
    /// Signal end-of-stream to the encoder if not yet done, and try to
    /// receive one more buffered packet.
    DrainPacket,
    /// Write the container trailer.
    WriteTrailerNow,
    /// Terminal: report the recorded outcome.
    Done,
}

/// The transcode pipeline for one (source, tier) pair, as a state machine
/// over the driver's events.
pub struct Pipeline {
    /// Current stage of the cycle.
    pub stage: PipelineStage,
    /// The resolved target dimensions for this tier.
    pub target: Resolution,
    /// The presentation timestamp the next processed frame receives:
    /// monotonically increasing from 0, one unit of the fixed 30 fps
    /// timebase per frame.
    pub next_pts: i64,
    /// Set exactly when the pipeline is finished.
    pub outcome: Option<PipelineOutcome>,
}

impl Pipeline {
    /// Structural well-formedness: the outcome exists exactly in the terminal
    /// stage, and timestamps never run backwards from 0.
    pub open spec fn wf(self) -> bool {
        &&& (self.stage is Finished <==> self.outcome is Some)
        &&& self.next_pts >= 0
    }

    /// Which events the driver may report in the current stage.
    pub open spec fn event_allowed(self, ev: PipelineEvent) -> bool {
        match (self.stage, ev) {
            (PipelineStage::ProbeSource, PipelineEvent::SourceOpened { .. }) => true,
            (PipelineStage::ProbeSource, PipelineEvent::SourceFailed { .. }) => true,
            (PipelineStage::OpenOutput, PipelineEvent::OutputReady) => true,
            (PipelineStage::OpenOutput, PipelineEvent::OutputFailed { .. }) => true,
            (PipelineStage::WriteHeader, PipelineEvent::HeaderWritten) => true,
            (PipelineStage::WriteHeader, PipelineEvent::HeaderFailed { .. }) => true,
            (PipelineStage::InitScaler, PipelineEvent::ScalerReady) => true,
            (PipelineStage::InitScaler, PipelineEvent::ScalerFailed { .. }) => true,
            (PipelineStage::Streaming, PipelineEvent::FrameDecoded) => self.next_pts < i64::MAX,
            (PipelineStage::Streaming, PipelineEvent::PacketDropped) => true,
            (PipelineStage::Streaming, PipelineEvent::FrameWritten) => true,
            (PipelineStage::Streaming, PipelineEvent::FrameScaleFailed { .. }) => true,
            (PipelineStage::Streaming, PipelineEvent::WriteFailed { .. }) => true,
            (PipelineStage::Streaming, PipelineEvent::InputEnded) => true,
            (PipelineStage::Draining, PipelineEvent::DrainedPacketWritten) => true,
            (PipelineStage::Draining, PipelineEvent::WriteFailed { .. }) => true,
            (PipelineStage::Draining, PipelineEvent::DrainEnded) => true,
            (PipelineStage::WriteTrailer, PipelineEvent::TrailerWritten) => true,
            (PipelineStage::WriteTrailer, PipelineEvent::TrailerFailed { .. }) => true,
            _ => false,
        }
    }

    /// The terminal state holding the given outcome.
    pub open spec fn spec_finish(self, o: PipelineOutcome) -> Pipeline {
        Pipeline {
            stage: PipelineStage::Finished,
            target: self.target,
            next_pts: self.next_pts,
            outcome: Some(o),
        }
    }

    /// The same pipeline, moved to another stage.
    pub open spec fn spec_at(self, stage: PipelineStage) -> Pipeline {
        Pipeline { stage, target: self.target, next_pts: self.next_pts, outcome: self.outcome }
    }

    /// The transition function: next state and next driver action for each
    /// allowed event.
    pub open spec fn step_spec(self, ev: PipelineEvent) -> (Pipeline, PipelineAction) {
        match (self.stage, ev) {
            (PipelineStage::ProbeSource, PipelineEvent::SourceOpened { width, height }) => {
                if spec_skip(self.target, width, height) {
                    (self.spec_finish(PipelineOutcome::Skipped), PipelineAction::Done)
                } else {
                    (
                        self.spec_at(PipelineStage::OpenOutput),
                        PipelineAction::ConfigureOutput {
                            width: self.target.width,
                            height: self.target.height,
                        },
                    )
                }
            },
            (PipelineStage::ProbeSource, PipelineEvent::SourceFailed { detail }) => (
                self.spec_finish(
                    PipelineOutcome::Failed { error: PipelineError::SourceOpenError { detail } },
                ),
                PipelineAction::Done,
            ),
            (PipelineStage::OpenOutput, PipelineEvent::OutputReady) => (
                self.spec_at(PipelineStage::WriteHeader),
                PipelineAction::WriteHeaderNow,
            ),
            (PipelineStage::OpenOutput, PipelineEvent::OutputFailed { detail }) => (
                self.spec_finish(
                    PipelineOutcome::Failed { error: PipelineError::EncoderInitError { detail } },
                ),
                PipelineAction::Done,
            ),
            (PipelineStage::WriteHeader, PipelineEvent::HeaderWritten) => (
                self.spec_at(PipelineStage::InitScaler),
                PipelineAction::ConfigureScaler {
                    width: self.target.width,
                    height: self.target.height,
                },
            ),
            (PipelineStage::WriteHeader, PipelineEvent::HeaderFailed { detail }) => (
                self.spec_finish(
                    PipelineOutcome::Failed { error: PipelineError::MuxInitError { detail } },
                ),
                PipelineAction::Done,
            ),
            (PipelineStage::InitScaler, PipelineEvent::ScalerReady) => (
                self.spec_at(PipelineStage::Streaming),
                PipelineAction::NextPacket,
            ),
            (PipelineStage::InitScaler, PipelineEvent::ScalerFailed { detail }) => (
                self.spec_finish(
                    PipelineOutcome::Failed { error: PipelineError::ScaleError { detail } },
                ),
                PipelineAction::Done,
            ),
            (PipelineStage::Streaming, PipelineEvent::FrameDecoded) => (
                Pipeline {
                    stage: PipelineStage::Streaming,
                    target: self.target,
                    next_pts: (self.next_pts + 1) as i64,
                    outcome: self.outcome,
                },
                PipelineAction::EncodeFrame { pts: self.next_pts },
            ),
            (PipelineStage::Streaming, PipelineEvent::PacketDropped) => (
                self,
                PipelineAction::NextPacket,
            ),
            (PipelineStage::Streaming, PipelineEvent::FrameWritten) => (
                self,
                PipelineAction::NextPacket,
            ),
            (PipelineStage::Streaming, PipelineEvent::FrameScaleFailed { detail }) => (
                self.spec_finish(
                    PipelineOutcome::Failed { error: PipelineError::ScaleError { detail } },
                ),
                PipelineAction::Done,
            ),
            (PipelineStage::Streaming, PipelineEvent::WriteFailed { detail }) => (
                self.spec_finish(
                    PipelineOutcome::Failed { error: PipelineError::EncodeWriteError { detail } },
                ),
                PipelineAction::Done,
            ),
            (PipelineStage::Streaming, PipelineEvent::InputEnded) => (
                self.spec_at(PipelineStage::Draining),
                PipelineAction::DrainPacket,
            ),
            (PipelineStage::Draining, PipelineEvent::DrainedPacketWritten) => (
                self,
                PipelineAction::DrainPacket,
            ),
            (PipelineStage::Draining, PipelineEvent::WriteFailed { detail }) => (
                self.spec_finish(
                    PipelineOutcome::Failed { error: PipelineError::EncodeWriteError { detail } },
                ),
                PipelineAction::Done,
            ),
            (PipelineStage::Draining, PipelineEvent::DrainEnded) => (
                self.spec_at(PipelineStage::WriteTrailer),
                PipelineAction::WriteTrailerNow,
            ),
            (PipelineStage::WriteTrailer, PipelineEvent::TrailerWritten) => (
                self.spec_finish(PipelineOutcome::Produced),
                PipelineAction::Done,
            ),
            (PipelineStage::WriteTrailer, PipelineEvent::TrailerFailed { detail }) => (
                self.spec_finish(
                    PipelineOutcome::Failed { error: PipelineError::MuxError { detail } },
                ),
                PipelineAction::Done,
            ),
            _ => (self, PipelineAction::Done),
        }
    }

    /// Starts a pipeline for one tier label: the target is resolved from the
    /// fixed ladder (with the silent fallback), and the driver's first duty
    /// is to open the source.
    pub fn new(label: &str) -> (p: Pipeline)
        ensures
            p.wf(),
            p.stage is ProbeSource,
            p.target == spec_resolve(label@),
            p.next_pts == 0,
            p.outcome is None,
    {
        Pipeline {
            stage: PipelineStage::ProbeSource,
            target: resolve_target(label),
            next_pts: 0,
            outcome: None,
        }
    }

    /// Advances the machine on one driver event and says what to do next.
    pub fn step(&mut self, ev: PipelineEvent) -> (a: PipelineAction)
        requires
            old(self).wf(),
            old(self).event_allowed(ev),
        ensures
            final(self).wf(),
            *final(self) == old(self).step_spec(ev).0,
            a == old(self).step_spec(ev).1,
    {
        match ev {
            PipelineEvent::SourceOpened { width, height } => {
                if should_skip(&self.target, width, height) {
                    self.stage = PipelineStage::Finished;
                    self.outcome = Some(PipelineOutcome::Skipped);
                    PipelineAction::Done
                } else {
                    self.stage = PipelineStage::OpenOutput;
                    PipelineAction::ConfigureOutput {
                        width: self.target.width,
                        height: self.target.height,
                    }
                }
            },
            PipelineEvent::SourceFailed { detail } => {
                self.stage = PipelineStage::Finished;
                self.outcome = Some(
                    PipelineOutcome::Failed { error: PipelineError::SourceOpenError { detail } },
                );
                PipelineAction::Done
            },
            PipelineEvent::OutputReady => {
                self.stage = PipelineStage::WriteHeader;
                PipelineAction::WriteHeaderNow
            },
            PipelineEvent::OutputFailed { detail } => {
                self.stage = PipelineStage::Finished;
                self.outcome = Some(
                    PipelineOutcome::Failed { error: PipelineError::EncoderInitError { detail } },
                );
                PipelineAction::Done
            },
            PipelineEvent::HeaderWritten => {
                self.stage = PipelineStage::InitScaler;
                PipelineAction::ConfigureScaler {
                    width: self.target.width,
                    height: self.target.height,
                }
            },
            PipelineEvent::HeaderFailed { detail } => {
                self.stage = PipelineStage::Finished;
                self.outcome = Some(
                    PipelineOutcome::Failed { error: PipelineError::MuxInitError { detail } },
                );
                PipelineAction::Done
            },
            PipelineEvent::ScalerReady => {
                self.stage = PipelineStage::Streaming;
                PipelineAction::NextPacket
            },
            PipelineEvent::ScalerFailed { detail } => {
                self.stage = PipelineStage::Finished;
                self.outcome = Some(
                    PipelineOutcome::Failed { error: PipelineError::ScaleError { detail } },
                );
                PipelineAction::Done
            },
            PipelineEvent::FrameDecoded => {
                let pts = self.next_pts;
                self.next_pts = pts + 1;
                PipelineAction::EncodeFrame { pts }
            },
            PipelineEvent::PacketDropped => PipelineAction::NextPacket,
            PipelineEvent::FrameWritten => PipelineAction::NextPacket,
            PipelineEvent::FrameScaleFailed { detail } => {
                self.stage = PipelineStage::Finished;
                self.outcome = Some(
                    PipelineOutcome::Failed { error: PipelineError::ScaleError { detail } },
                );
                PipelineAction::Done
            },
            PipelineEvent::WriteFailed { detail } => {
                self.stage = PipelineStage::Finished;
                self.outcome = Some(
                    PipelineOutcome::Failed { error: PipelineError::EncodeWriteError { detail } },
                );
                PipelineAction::Done
            },
            PipelineEvent::InputEnded => {
                self.stage = PipelineStage::Draining;
                PipelineAction::DrainPacket
            },
            PipelineEvent::DrainedPacketWritten => PipelineAction::DrainPacket,
            PipelineEvent::DrainEnded => {
                self.stage = PipelineStage::WriteTrailer;
                PipelineAction::WriteTrailerNow
            },
            PipelineEvent::TrailerWritten => {
                self.stage = PipelineStage::Finished;
                self.outcome = Some(PipelineOutcome::Produced);
                PipelineAction::Done
            },
            PipelineEvent::TrailerFailed { detail } => {
                self.stage = PipelineStage::Finished;
                self.outcome = Some(
                    PipelineOutcome::Failed { error: PipelineError::MuxError { detail } },
                );
                PipelineAction::Done
            },
        }
    }
}

/// A tier whose resolved target exceeds the source in either axis finishes
/// at once as a skip: a success, with no output ever configured, written, or
/// encoded, and hence no tier result to contribute.
pub proof fn lemma_skip_is_silent_success(p: Pipeline, width: u32, height: u32)
    requires
        p.wf(),
        p.stage is ProbeSource,
        spec_skip(p.target, width, height),
    ensures
        p.step_spec(PipelineEvent::SourceOpened { width, height }).0.outcome == Some(
            PipelineOutcome::Skipped,
        ),
        p.step_spec(PipelineEvent::SourceOpened { width, height }).1 is Done,
{
}

/// A source whose native dimensions equal the resolved target exactly is not
/// skipped, and the encoder is configured at precisely those dimensions, so
/// the produced container carries the tier's exact target size.
pub proof fn lemma_exact_match_encodes_at_source_dims(p: Pipeline, width: u32, height: u32)
    requires
        p.wf(),
        p.stage is ProbeSource,
        p.target == (Resolution { width, height }),
    ensures
        !spec_skip(p.target, width, height),
        p.step_spec(PipelineEvent::SourceOpened { width, height }).1 == (
        PipelineAction::ConfigureOutput { width, height }),
{
}

} // verus!
