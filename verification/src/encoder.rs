use vstd::prelude::*;

use crate::error::VideoExportError;

verus! {

/// A name for the text that `String::from_utf8_lossy` makes of some bytes.
pub uninterp spec fn lossy_utf8_text(bytes: Seq<u8>) -> Seq<char>;

/// Calls `String::from_utf8_lossy` and takes the text it gives. Trusted:
/// the text is the one named by `lossy_utf8_text` for these bytes, and, as
/// std documents, bytes that are valid UTF-8 come back as exactly the text
/// they encode. What replaces invalid sequences is not stated.
#[verifier::external_body]
fn utf8_lossy(bytes: &[u8]) -> (text: String)
    ensures
        text@ == lossy_utf8_text(bytes@),
        vstd::utf8::valid_utf8(bytes@) ==> text@ == vstd::utf8::decode_utf8(bytes@),
{
    String::from_utf8_lossy(bytes).into_owned()
}

/// Where the background encoder stands.
#[derive(Clone, Copy, Debug, PartialEq, Eq, Structural)]
pub enum WorkerPhase {
    /// Waiting for the next frame from the render loop.
    AwaitingFrame,
    /// Writing a frame to FFmpeg's standard input.
    WritingFrame,
    /// Input closed; waiting for FFmpeg to exit.
    AwaitingExit,
    /// Done; the outcome has been reported.
    Finished,
}

/// What happened since the encoder's last action.
#[derive(Debug)]
pub enum WorkerEvent {
    /// A frame arrived from the render loop.
    FrameReceived,
    /// The render loop closed the frame channel: no more frames.
    ChannelClosed,
    /// The frame was written to FFmpeg.
    FrameWritten,
    /// Writing the frame failed.
    WriteFailed(std::io::Error),
    /// Waiting for FFmpeg failed; the text describes why.
    WaitFailed(String),
    /// FFmpeg exited, successfully or not, with this error output.
    Exited { success: bool, stderr: Vec<u8> },
}

/// What the encoder does next.
#[derive(Debug)]
pub enum WorkerAction {
    /// Wait for the next frame.
    ReceiveFrame,
    /// Write the frame just received to FFmpeg.
    WriteFrame,
    /// Close FFmpeg's input and wait for it to exit.
    CloseInputAndWait,
    /// Stop with this outcome.
    Stop(Result<(), VideoExportError>),
}

/// The events that can follow the action taken in `phase`.
pub open spec fn event_allowed(phase: WorkerPhase, event: WorkerEvent) -> bool {
    match phase {
        WorkerPhase::AwaitingFrame => event is FrameReceived || event is ChannelClosed,
        WorkerPhase::WritingFrame => event is FrameWritten || event is WriteFailed,
        WorkerPhase::AwaitingExit => event is WaitFailed || event is Exited,
        WorkerPhase::Finished => false,
    }
}

/// The encoder's first step: it needs FFmpeg's standard input; without it,
/// it stops with `FfmpegFailed("FFmpeg stdin not available")`.
pub fn worker_start(stdin_available: bool) -> (r: (WorkerPhase, WorkerAction))
    ensures
        stdin_available ==> r.0 == WorkerPhase::AwaitingFrame && r.1 is ReceiveFrame,
        !stdin_available ==> {
            &&& r.0 == WorkerPhase::Finished
            &&& r.1 matches WorkerAction::Stop(Err(VideoExportError::FfmpegFailed(m)))
            &&& m@ == "FFmpeg stdin not available"@
        },
{
    if stdin_available {
        (WorkerPhase::AwaitingFrame, WorkerAction::ReceiveFrame)
    } else {
        let m = "FFmpeg stdin not available".to_owned();
        (WorkerPhase::Finished, WorkerAction::Stop(Err(VideoExportError::FfmpegFailed(m))))
    }
}

/// One step of the encoder: frames are written one at a time as they arrive;
/// the first failed write stops it with `WriteFrameFailed`; once the channel
/// closes it closes FFmpeg's input and waits; a failed wait stops it with
/// `FfmpegFailed` of the reason, an unsuccessful exit with `FfmpegFailed` of
/// FFmpeg's error output, and a successful exit with `Ok`.
pub fn worker_step(phase: WorkerPhase, event: WorkerEvent) -> (r: (WorkerPhase, WorkerAction))
    requires
        event_allowed(phase, event),
    ensures
        event is FrameReceived ==> r.0 == WorkerPhase::WritingFrame && r.1 is WriteFrame,
        event is FrameWritten ==> r.0 == WorkerPhase::AwaitingFrame && r.1 is ReceiveFrame,
        event is ChannelClosed ==> r.0 == WorkerPhase::AwaitingExit && r.1 is CloseInputAndWait,
        event matches WorkerEvent::WriteFailed(e) ==> r.0 == WorkerPhase::Finished && r.1
            == WorkerAction::Stop(Err(VideoExportError::WriteFrameFailed(e))),
        event matches WorkerEvent::WaitFailed(m) ==> r.0 == WorkerPhase::Finished && r.1
            == WorkerAction::Stop(Err(VideoExportError::FfmpegFailed(m))),
        event matches WorkerEvent::Exited { success: true, .. } ==> r.0 == WorkerPhase::Finished
            && r.1 == WorkerAction::Stop(Ok(())),
        event matches WorkerEvent::Exited { success: false, stderr } ==> {
            &&& r.0 == WorkerPhase::Finished
            &&& r.1 matches WorkerAction::Stop(Err(VideoExportError::FfmpegFailed(m)))
            &&& m@ == lossy_utf8_text(stderr@)
        },
        // The encoder reports success only when FFmpeg exited successfully.
        (r.1 matches WorkerAction::Stop(Ok(_))) <==> (event matches WorkerEvent::Exited {
            success: true,
            ..
        }),
{
    match event {
        WorkerEvent::FrameReceived => (WorkerPhase::WritingFrame, WorkerAction::WriteFrame),
        WorkerEvent::FrameWritten => (WorkerPhase::AwaitingFrame, WorkerAction::ReceiveFrame),
        WorkerEvent::ChannelClosed => (WorkerPhase::AwaitingExit, WorkerAction::CloseInputAndWait),
        WorkerEvent::WriteFailed(e) => (
            WorkerPhase::Finished,
            WorkerAction::Stop(Err(VideoExportError::WriteFrameFailed(e))),
        ),
        WorkerEvent::WaitFailed(m) => (
            WorkerPhase::Finished,
            WorkerAction::Stop(Err(VideoExportError::FfmpegFailed(m))),
        ),
        WorkerEvent::Exited { success, stderr } => {
            if success {
                (WorkerPhase::Finished, WorkerAction::Stop(Ok(())))
            } else {
                let text = utf8_lossy(stderr.as_slice());
                (WorkerPhase::Finished, WorkerAction::Stop(Err(VideoExportError::FfmpegFailed(text))))
            }
        },
    }
}

/// What became of handing a frame to the encoder thread.
#[derive(Clone, Copy, Debug, PartialEq, Eq, Structural)]
pub enum SendOutcome {
    /// The encoder has no frame channel; nothing was sent.
    NoChannel,
    /// The frame was queued for the encoder thread.
    Delivered,
    /// The encoder thread is gone; the frame was not delivered.
    Disconnected,
}

/// The result of `write_frame`: only a frame that could not be delivered to
/// a running encoder thread is an error, `FrameSendFailed`.
pub fn frame_send_result(outcome: SendOutcome) -> (r: Result<(), VideoExportError>)
    ensures
        outcome == SendOutcome::Disconnected ==> r == Err::<(), VideoExportError>(
            VideoExportError::FrameSendFailed,
        ),
        outcome != SendOutcome::Disconnected ==> r == Ok::<(), VideoExportError>(()),
{
    match outcome {
        SendOutcome::Disconnected => Err(VideoExportError::FrameSendFailed),
        _ => Ok(()),
    }
}

/// What became of the encoder thread when the encoder was finished.
#[derive(Debug)]
pub enum JoinOutcome {
    /// There was no encoder thread to wait for.
    NoThread,
    /// The encoder thread panicked.
    Panicked,
    /// The encoder thread returned this outcome.
    Returned(Result<(), VideoExportError>),
}

/// The result of `finish`: the encoder thread's own outcome, an
/// `EncoderThreadPanicked` error if it panicked, `Ok` if there was none.
pub fn encoder_finish_result(outcome: JoinOutcome) -> (r: Result<(), VideoExportError>)
    ensures
        outcome is NoThread ==> r == Ok::<(), VideoExportError>(()),
        outcome is Panicked ==> r == Err::<(), VideoExportError>(
            VideoExportError::EncoderThreadPanicked,
        ),
        outcome matches JoinOutcome::Returned(res) ==> r == res,
{
    match outcome {
        JoinOutcome::NoThread => Ok(()),
        JoinOutcome::Panicked => Err(VideoExportError::EncoderThreadPanicked),
        JoinOutcome::Returned(res) => res,
    }
}

} // verus!
