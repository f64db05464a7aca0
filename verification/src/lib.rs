//! Builds GStreamer pipeline descriptions for camera streams and holds the
//! decisions of the pipeline watcher, with their contracts proved by Verus.

pub mod endpoint;
pub mod text;
pub mod types;
pub mod pipeline;
pub mod watcher;
pub mod logging;
pub mod messages;
pub mod rendering;
pub mod pipeline_laws;
pub mod pipeline_text_laws;
