# camera_pipeline

Builds the GStreamer pipeline description of a camera stream (source, caps,
transcoding, payloading and sink) and decides what the watcher of a running
pipeline does, with contracts proved by Verus.

- `src/types.rs`: video sources, capture configurations, streams, errors.
- `src/endpoint.rs`: endpoints as the parts of a URL (parsed with `url`),
  the default WebRTC servers and the choice of servers for a WebRTC sink.
- `src/pipeline.rs`: the description as spec functions and the builders.
- `src/pipeline_laws.rs`: laws over the whole description.
- `src/watcher.rs`: position stall detection and bus message decisions.
- `src/logging.rs`: level labels and colors, default log filter.
- `src/messages.rs`: the messages that pipeline errors are reported with.
- `src/rendering.rs`: the pretty `Debug` text of the video source types.
- `src/text.rs`: decimal rendering.
- `app/`: the GStreamer watcher thread, the logger set-up, URL conversion and
  the error type of the camera manager.

The `gstreamer` crate that `app/runner.rs` uses needs system libraries that
were not available where this crate was built, so it is not in `Cargo.toml`,
and `app/` does not compile without it.
