//! Verified core of exporting a recording as a video: resolution parsing,
//! the FFmpeg command line, timeline duration detection, and the decisions
//! of the background encoder.

pub mod encoder;
pub mod error;
pub mod export;
pub mod ffmpeg;
pub mod resolution;
pub mod timeline;

pub use error::VideoExportError;
pub use resolution::parse_resolution;
