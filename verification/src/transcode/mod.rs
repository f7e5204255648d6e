//! The transcoding core: job configuration, filter-graph and HLS option texts,
//! encoder selection, events and the pipeline's decisions.

pub mod encoders;
pub mod event;
pub mod filters;
pub mod hls;
pub mod job;
pub mod options;
pub mod pipeline;

pub use event::TranscodeHandle;
pub use job::{JobConfig, VariantSpec};
