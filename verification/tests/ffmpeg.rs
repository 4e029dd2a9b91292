use video_exporter::ffmpeg::{ffmpeg_encode_args, ffmpeg_probe_args, FRAME_QUEUE_SIZE};
use video_exporter::parse_resolution;

#[test]
fn encode_arguments_for_default_settings() {
    let expected = [
        "-y", "-f", "rawvideo", "-pix_fmt", "rgba", "-s", "1920x1080", "-r", "30", "-i", "pipe:0",
        "-c:v", "libx264", "-pix_fmt", "yuv420p", "-preset", "fast", "-crf", "23",
    ];
    assert_eq!(ffmpeg_encode_args(1920, 1080, 30), expected);
}

#[test]
fn encode_arguments_carry_size_and_rate() {
    let args = ffmpeg_encode_args(640, 480, 60);
    assert_eq!(args[6], "640x480");
    assert_eq!(args[8], "60");
    assert_eq!(parse_resolution(&args[6]).unwrap(), (640, 480));
    assert_eq!(args.len(), 19);
}

#[test]
fn probe_arguments() {
    assert_eq!(ffmpeg_probe_args(), ["-version"]);
}

#[test]
fn frame_queue_holds_eight_frames() {
    assert_eq!(FRAME_QUEUE_SIZE, 8);
}
