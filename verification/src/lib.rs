//! HLS multi-rendition transcoding: job configuration, FFmpeg filter-graph and
//! muxer option texts, encoder selection, and the decisions of the transcoding
//! pipeline and of the desktop front end's state machine.

pub mod paths;
pub mod text;
pub mod transcode;
pub mod app_state;
