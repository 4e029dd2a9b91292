# video_exporter

The core of exporting a recording as an MP4 video through FFmpeg, verified with Verus.

- `src/resolution.rs`: reading `WIDTHxHEIGHT` texts and writing decimal numbers, with the
  proof that every written resolution reads back unchanged.
- `src/ffmpeg.rs`: the FFmpeg command lines and the frame queue size.
- `src/timeline.rs`: choosing the timeline whose length sets the video's length.
- `src/encoder.rs`: the decisions of the background encoder thread and of the encoder handle.
- `src/export.rs`: the order of an export's steps and what each failure ends it with.
- `src/error.rs`: the error type and the message of each error.
- `app/`: process, thread and progress-bar plumbing, the configuration with its
  floating-point fields, and the export loop over a headless viewer.
