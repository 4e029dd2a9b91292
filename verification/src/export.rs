use vstd::prelude::*;

use crate::error::VideoExportError;

verus! {

/// Where an export stands.
#[derive(Clone, Copy, Debug, PartialEq, Eq, Structural)]
pub enum ExportPhase {
    /// The recording is loading; next, check that data arrived.
    CheckingData,
    /// Data is there; the timeline, frame count and encoder are being set up.
    Preparing,
    /// Frame `frame` of `total` is to be rendered.
    Rendering { frame: u64, total: u64 },
    /// Frame `frame` of `total` was rendered and is to be written.
    Writing { frame: u64, total: u64 },
    /// Frame `frame` of `total` was written; the timeline is to advance.
    Advancing { frame: u64, total: u64 },
    /// All frames are written; the encoder is to finish.
    Finishing,
    /// Done; the outcome has been reported.
    Finished,
}

/// What happened since the export's last action.
#[derive(Debug)]
pub enum ExportEvent {
    /// The recording was checked for data.
    DataChecked { loaded: bool },
    /// The encoder started; the video has this many frames.
    EncoderStarted { total_frames: u64 },
    /// The encoder could not be started.
    EncoderFailed(VideoExportError),
    /// The frame was rendered.
    FrameRendered,
    /// Rendering the frame failed, for this reason.
    RenderFailed(String),
    /// The frame was handed to the encoder.
    FrameWritten,
    /// Handing the frame to the encoder failed.
    WriteFailed(VideoExportError),
    /// The timeline advanced by one frame's time.
    Advanced,
    /// The encoder finished with this outcome.
    EncoderFinished(Result<(), VideoExportError>),
}

/// What the export does next.
#[derive(Debug)]
pub enum ExportAction {
    /// Check that the recording holds data.
    CheckData,
    /// Set up the timeline and frame count, then start the encoder.
    Prepare,
    /// Render frame `0`-based index.
    RenderFrame(u64),
    /// Hand the rendered frame with this index to the encoder.
    WriteFrame(u64),
    /// Advance the timeline after the frame with this index.
    Advance(u64),
    /// Finish the encoder and wait for it.
    FinishEncoder,
    /// Stop the encoder, delete the partly written output, and fail with this error.
    DiscardOutputAndFail(VideoExportError),
    /// Stop with this outcome.
    Stop(Result<(), VideoExportError>),
}

/// The phases that can occur: a frame being worked on is one of the video's frames.
pub open spec fn phase_wf(phase: ExportPhase) -> bool {
    match phase {
        ExportPhase::Rendering { frame, total } => frame < total,
        ExportPhase::Writing { frame, total } => frame < total,
        ExportPhase::Advancing { frame, total } => frame < total,
        _ => true,
    }
}

/// The events that can follow the action taken in `phase`.
pub open spec fn export_event_allowed(phase: ExportPhase, event: ExportEvent) -> bool {
    match phase {
        ExportPhase::CheckingData => event is DataChecked,
        ExportPhase::Preparing => event is EncoderStarted || event is EncoderFailed,
        ExportPhase::Rendering { .. } => event is FrameRendered || event is RenderFailed,
        ExportPhase::Writing { .. } => event is FrameWritten || event is WriteFailed,
        ExportPhase::Advancing { .. } => event is Advanced,
        ExportPhase::Finishing => event is EncoderFinished,
        ExportPhase::Finished => false,
    }
}

/// The first step of an export: check the loaded recording.
pub fn export_start() -> (r: (ExportPhase, ExportAction))
    ensures
        r.0 == ExportPhase::CheckingData,
        r.1 is CheckData,
{
    (ExportPhase::CheckingData, ExportAction::CheckData)
}

/// The first frame's phase, or finishing when there are no frames.
fn first_frame(total: u64) -> (r: (ExportPhase, ExportAction))
    ensures
        total == 0 ==> r.0 == ExportPhase::Finishing && r.1 is FinishEncoder,
        total > 0 ==> r.0 == (ExportPhase::Rendering { frame: 0, total }) && r.1 == ExportAction::RenderFrame(
            0,
        ),
{
    if total == 0 {
        (ExportPhase::Finishing, ExportAction::FinishEncoder)
    } else {
        (ExportPhase::Rendering { frame: 0, total }, ExportAction::RenderFrame(0))
    }
}

/// One step of an export. Without data it fails with `NoDataLoaded` before
/// any encoder is started; frames `0..total` are then rendered, handed to
/// the encoder and followed by a timeline advance, one at a time and in
/// order; the first failure ends the export with that error (a failed render
/// also discards the partly written output); after the last frame the
/// encoder is finished and its outcome is the export's.
pub fn export_step(phase: ExportPhase, event: ExportEvent) -> (r: (ExportPhase, ExportAction))
    requires
        phase_wf(phase),
        export_event_allowed(phase, event),
    ensures
        phase_wf(r.0),
        event matches ExportEvent::DataChecked { loaded: true } ==> r.0 == ExportPhase::Preparing
            && r.1 is Prepare,
        event matches ExportEvent::DataChecked { loaded: false } ==> r.0 == ExportPhase::Finished
            && r.1 == ExportAction::Stop(Err(VideoExportError::NoDataLoaded)),
        event matches ExportEvent::EncoderStarted { total_frames } ==> {
            &&& total_frames == 0 ==> r.0 == ExportPhase::Finishing && r.1 is FinishEncoder
            &&& total_frames > 0 ==> r.0 == (ExportPhase::Rendering { frame: 0, total: total_frames })
                && r.1 == ExportAction::RenderFrame(0)
        },
        event matches ExportEvent::EncoderFailed(e) ==> r.0 == ExportPhase::Finished && r.1
            == ExportAction::Stop(Err(e)),
        event is FrameRendered ==> (phase matches ExportPhase::Rendering { frame, total } && r.0 == (
        ExportPhase::Writing { frame, total }) && r.1 == ExportAction::WriteFrame(frame)),
        event matches ExportEvent::RenderFailed(m) ==> r.0 == ExportPhase::Finished && r.1
            == ExportAction::DiscardOutputAndFail(VideoExportError::RenderFailed(m)),
        event is FrameWritten ==> (phase matches ExportPhase::Writing { frame, total } && r.0 == (
        ExportPhase::Advancing { frame, total }) && r.1 == ExportAction::Advance(frame)),
        event matches ExportEvent::WriteFailed(e) ==> r.0 == ExportPhase::Finished && r.1
            == ExportAction::Stop(Err(e)),
        event is Advanced ==> (phase matches ExportPhase::Advancing { frame, total } && {
            &&& frame + 1 < total ==> r.0 == (ExportPhase::Rendering { frame: (frame + 1) as u64, total })
                && r.1 == ExportAction::RenderFrame((frame + 1) as u64)
            &&& frame + 1 == total ==> r.0 == ExportPhase::Finishing && r.1 is FinishEncoder
        }),
        event matches ExportEvent::EncoderFinished(res) ==> r.0 == ExportPhase::Finished && r.1
            == ExportAction::Stop(res),
        // An export succeeds only when the encoder, finished after every frame, succeeds.
        (r.1 matches ExportAction::Stop(Ok(_))) <==> (phase == ExportPhase::Finishing
            && event matches ExportEvent::EncoderFinished(Ok(_))),
{
    match event {
        ExportEvent::DataChecked { loaded } => {
            if loaded {
                (ExportPhase::Preparing, ExportAction::Prepare)
            } else {
                (ExportPhase::Finished, ExportAction::Stop(Err(VideoExportError::NoDataLoaded)))
            }
        },
        ExportEvent::EncoderStarted { total_frames } => first_frame(total_frames),
        ExportEvent::EncoderFailed(e) => (ExportPhase::Finished, ExportAction::Stop(Err(e))),
        ExportEvent::FrameRendered => match phase {
            ExportPhase::Rendering { frame, total } => (
                ExportPhase::Writing { frame, total },
                ExportAction::WriteFrame(frame),
            ),
            _ => (ExportPhase::Finished, ExportAction::FinishEncoder),
        },
        ExportEvent::RenderFailed(m) => (
            ExportPhase::Finished,
            ExportAction::DiscardOutputAndFail(VideoExportError::RenderFailed(m)),
        ),
        ExportEvent::FrameWritten => match phase {
            ExportPhase::Writing { frame, total } => (
                ExportPhase::Advancing { frame, total },
                ExportAction::Advance(frame),
            ),
            _ => (ExportPhase::Finished, ExportAction::FinishEncoder),
        },
        ExportEvent::WriteFailed(e) => (ExportPhase::Finished, ExportAction::Stop(Err(e))),
        ExportEvent::Advanced => match phase {
            ExportPhase::Advancing { frame, total } => {
                if frame + 1 < total {
                    (
                        ExportPhase::Rendering { frame: frame + 1, total },
                        ExportAction::RenderFrame(frame + 1),
                    )
                } else {
                    (ExportPhase::Finishing, ExportAction::FinishEncoder)
                }
            },
            _ => (ExportPhase::Finished, ExportAction::FinishEncoder),
        },
        ExportEvent::EncoderFinished(res) => (ExportPhase::Finished, ExportAction::Stop(res)),
    }
}

} // verus!
