use vstd::prelude::*;

verus! {

/// The standard library's I/O error, carried through unchanged.
#[verifier::external_type_specification]
#[verifier::external_body]
pub struct ExIoError(std::io::Error);

/// Errors that can occur during video export.
#[derive(Debug)]
pub enum VideoExportError {
    /// `ffmpeg -version` could not be run.
    FfmpegNotFound,
    /// The encoding process could not be started.
    FfmpegStartFailed(std::io::Error),
    /// A frame could not be written to the encoder's input.
    WriteFrameFailed(std::io::Error),
    /// The encoder failed; the text is what it reported.
    FfmpegFailed(String),
    /// A resolution text that is not `WIDTHxHEIGHT`; the text is the input.
    InvalidResolution(String),
    /// Rendering a frame failed.
    RenderFailed(String),
    /// No recording was loaded.
    NoDataLoaded,
    /// The encoder thread panicked.
    EncoderThreadPanicked,
    /// The frame channel to the encoder thread was closed.
    FrameSendFailed,
}

/// The text `prefix` followed by `rest`.
fn joined(prefix: &str, rest: &str) -> (r: String)
    ensures
        r@ == prefix@ + rest@,
{
    let mut r = prefix.to_owned();
    r.append(rest);
    r
}

impl VideoExportError {
    /// The message that describes the error to the user.
    pub fn to_string(&self) -> (r: String)
        ensures
            match self {
                VideoExportError::FfmpegNotFound => r@
                    == "FFmpeg not found. Please install FFmpeg and ensure it's in your PATH.\n\nInstallation instructions:\n  - macOS: brew install ffmpeg\n  - Ubuntu/Debian: sudo apt install ffmpeg\n  - Fedora: sudo dnf install ffmpeg\n  - Arch Linux: sudo pacman -S ffmpeg\n  - Windows: Download from https://ffmpeg.org/download.html"@,
                VideoExportError::FfmpegStartFailed(e) => exists|t: String|
                    vstd::string::to_string_from_display_ensures::<std::io::Error>(e, t) && r@
                        == "Failed to start FFmpeg: "@ + t@,
                VideoExportError::WriteFrameFailed(e) => exists|t: String|
                    vstd::string::to_string_from_display_ensures::<std::io::Error>(e, t) && r@
                        == "Failed to write frame to FFmpeg (broken pipe). FFmpeg may have crashed or exited early: "@
                        + t@,
                VideoExportError::FfmpegFailed(m) => r@ == "FFmpeg encoding failed:\n"@ + m@,
                VideoExportError::InvalidResolution(text) => r@ == "Invalid resolution '"@ + text@
                    + "'. Expected format: WIDTHxHEIGHT (e.g., 1920x1080)"@,
                VideoExportError::RenderFailed(m) => r@ == "Render failed: "@ + m@,
                VideoExportError::NoDataLoaded => r@
                    == "No recording data loaded. Please provide at least one valid .rrd file."@,
                VideoExportError::EncoderThreadPanicked => r@ == "Encoder thread panicked"@,
                VideoExportError::FrameSendFailed => r@ == "Failed to send frame to encoder thread"@,
            },
    {
        match self {
            VideoExportError::FfmpegNotFound => "FFmpeg not found. Please install FFmpeg and ensure it's in your PATH.\n\nInstallation instructions:\n  - macOS: brew install ffmpeg\n  - Ubuntu/Debian: sudo apt install ffmpeg\n  - Fedora: sudo dnf install ffmpeg\n  - Arch Linux: sudo pacman -S ffmpeg\n  - Windows: Download from https://ffmpeg.org/download.html".to_owned(),
            VideoExportError::FfmpegStartFailed(e) => {
                let t = e.to_string();
                joined("Failed to start FFmpeg: ", t.as_str())
            },
            VideoExportError::WriteFrameFailed(e) => {
                let t = e.to_string();
                joined(
                    "Failed to write frame to FFmpeg (broken pipe). FFmpeg may have crashed or exited early: ",
                    t.as_str(),
                )
            },
            VideoExportError::FfmpegFailed(m) => joined("FFmpeg encoding failed:\n", m.as_str()),
            VideoExportError::InvalidResolution(text) => {
                let mut r = joined("Invalid resolution '", text.as_str());
                r.append("'. Expected format: WIDTHxHEIGHT (e.g., 1920x1080)");
                r
            },
            VideoExportError::RenderFailed(m) => joined("Render failed: ", m.as_str()),
            VideoExportError::NoDataLoaded => "No recording data loaded. Please provide at least one valid .rrd file.".to_owned(),
            VideoExportError::EncoderThreadPanicked => "Encoder thread panicked".to_owned(),
            VideoExportError::FrameSendFailed => "Failed to send frame to encoder thread".to_owned(),
        }
    }
}

} // verus!
