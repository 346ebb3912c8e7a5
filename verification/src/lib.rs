//! A video transcoding core: a fixed resolution ladder, the transcode
//! pipeline for one (source, tier) pair as a state machine over its driver's
//! events, the per-job orchestrator with its all-or-nothing commit policy,
//! and the shared table of job records.

pub mod job;
pub mod orchestrator;
pub mod paths;
pub mod pipeline;
pub mod resolver;
pub mod store;
