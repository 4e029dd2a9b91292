use video_exporter::{parse_resolution, VideoExportError};

#[test]
fn invalid_resolution_message() {
    assert_eq!(
        parse_resolution("abc").unwrap_err().to_string(),
        "Invalid resolution 'abc'. Expected format: WIDTHxHEIGHT (e.g., 1920x1080)"
    );
}

#[test]
fn ffmpeg_not_found_message_lists_installation_steps() {
    let text = VideoExportError::FfmpegNotFound.to_string();
    assert!(text.starts_with("FFmpeg not found. Please install FFmpeg and ensure it's in your PATH."));
    assert!(text.contains("  - macOS: brew install ffmpeg\n"));
    assert!(text.contains("  - Ubuntu/Debian: sudo apt install ffmpeg\n"));
    assert!(text.ends_with("  - Windows: Download from https://ffmpeg.org/download.html"));
}

#[test]
fn messages_with_io_errors() {
    let e = std::io::Error::new(std::io::ErrorKind::NotFound, "no such program");
    assert_eq!(
        VideoExportError::FfmpegStartFailed(e).to_string(),
        "Failed to start FFmpeg: no such program"
    );
    let e = std::io::Error::new(std::io::ErrorKind::BrokenPipe, "pipe closed");
    assert_eq!(
        VideoExportError::WriteFrameFailed(e).to_string(),
        "Failed to write frame to FFmpeg (broken pipe). FFmpeg may have crashed or exited early: pipe closed"
    );
}

#[test]
fn messages_of_other_errors() {
    assert_eq!(
        VideoExportError::FfmpegFailed("bad codec".to_string()).to_string(),
        "FFmpeg encoding failed:\nbad codec"
    );
    assert_eq!(
        VideoExportError::RenderFailed("gpu lost".to_string()).to_string(),
        "Render failed: gpu lost"
    );
    assert_eq!(
        VideoExportError::NoDataLoaded.to_string(),
        "No recording data loaded. Please provide at least one valid .rrd file."
    );
    assert_eq!(VideoExportError::EncoderThreadPanicked.to_string(), "Encoder thread panicked");
    assert_eq!(
        VideoExportError::FrameSendFailed.to_string(),
        "Failed to send frame to encoder thread"
    );
}
