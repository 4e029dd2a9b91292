use video_exporter::export::{export_start, export_step, ExportAction, ExportEvent, ExportPhase};
use video_exporter::VideoExportError;

#[test]
fn export_without_data_fails_before_encoding() {
    let (phase, action) = export_start();
    assert_eq!(phase, ExportPhase::CheckingData);
    assert!(matches!(action, ExportAction::CheckData));
    let (phase, action) = export_step(phase, ExportEvent::DataChecked { loaded: false });
    assert_eq!(phase, ExportPhase::Finished);
    assert!(matches!(action, ExportAction::Stop(Err(VideoExportError::NoDataLoaded))));
}

#[test]
fn export_renders_writes_and_advances_each_frame_in_order() {
    let (phase, _) = export_start();
    let (mut phase, mut action) = export_step(phase, ExportEvent::DataChecked { loaded: true });
    assert!(matches!(action, ExportAction::Prepare));
    (phase, action) = export_step(phase, ExportEvent::EncoderStarted { total_frames: 2 });
    let mut log = Vec::new();
    loop {
        let event = match action {
            ExportAction::RenderFrame(i) => {
                log.push(format!("render {i}"));
                ExportEvent::FrameRendered
            }
            ExportAction::WriteFrame(i) => {
                log.push(format!("write {i}"));
                ExportEvent::FrameWritten
            }
            ExportAction::Advance(i) => {
                log.push(format!("advance {i}"));
                ExportEvent::Advanced
            }
            ExportAction::FinishEncoder => {
                log.push("finish".to_string());
                ExportEvent::EncoderFinished(Ok(()))
            }
            ExportAction::Stop(result) => {
                assert!(result.is_ok());
                break;
            }
            other => panic!("unexpected {:?}", other),
        };
        (phase, action) = export_step(phase, event);
    }
    assert_eq!(phase, ExportPhase::Finished);
    assert_eq!(
        log,
        ["render 0", "write 0", "advance 0", "render 1", "write 1", "advance 1", "finish"]
    );
}

#[test]
fn export_with_no_frames_finishes_at_once() {
    let (phase, action) = export_step(ExportPhase::Preparing, ExportEvent::EncoderStarted { total_frames: 0 });
    assert_eq!(phase, ExportPhase::Finishing);
    assert!(matches!(action, ExportAction::FinishEncoder));
}

#[test]
fn failed_render_discards_output() {
    let (phase, action) = export_step(
        ExportPhase::Rendering { frame: 3, total: 10 },
        ExportEvent::RenderFailed("gpu lost".to_string()),
    );
    assert_eq!(phase, ExportPhase::Finished);
    match action {
        ExportAction::DiscardOutputAndFail(VideoExportError::RenderFailed(m)) => {
            assert_eq!(m, "gpu lost")
        }
        other => panic!("unexpected {:?}", other),
    }
}

#[test]
fn failed_write_and_failed_start_stop_the_export() {
    let (phase, action) = export_step(
        ExportPhase::Writing { frame: 0, total: 1 },
        ExportEvent::WriteFailed(VideoExportError::FrameSendFailed),
    );
    assert_eq!(phase, ExportPhase::Finished);
    assert!(matches!(action, ExportAction::Stop(Err(VideoExportError::FrameSendFailed))));
    let (phase, action) = export_step(
        ExportPhase::Preparing,
        ExportEvent::EncoderFailed(VideoExportError::FfmpegNotFound),
    );
    assert_eq!(phase, ExportPhase::Finished);
    assert!(matches!(action, ExportAction::Stop(Err(VideoExportError::FfmpegNotFound))));
}

#[test]
fn encoder_outcome_is_the_export_outcome() {
    let (_, action) = export_step(
        ExportPhase::Finishing,
        ExportEvent::EncoderFinished(Err(VideoExportError::EncoderThreadPanicked)),
    );
    assert!(matches!(action, ExportAction::Stop(Err(VideoExportError::EncoderThreadPanicked))));
}
