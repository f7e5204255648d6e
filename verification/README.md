# transform_video

A verified core for a desktop tool that turns one video into an HLS ladder
(1080p / 720p / 480p plus an audio-only rendition, fMP4 segments, master
playlist) with FFmpeg.

- `src/` — the library, verified with Verus:
  - `transcode/job.rs` — the job configuration, its validation and the output layout;
  - `transcode/filters.rs` — the filter-graph text (split, scale, fps, format; audio format);
  - `transcode/hls.rs`, `transcode/options.rs` — `var_stream_map` and the HLS muxer options;
  - `transcode/encoders.rs` — hardware encoder candidates, width estimate, encoder choice;
  - `transcode/event.rs` — job events and the cancellation handle;
  - `transcode/pipeline.rs` — the pipeline's decisions (source arguments, packet routing,
    header timing, the queue of packets that wait for the header, how a run ends);
  - `app_state.rs` — the front end's settings and status machine;
  - `text.rs`, `paths.rs` — decimal numerals and joins; paths through `std::path`.
- `app/` — the desktop program: gpui windows, the transcoding thread and the FFmpeg calls.
- `tests/` — tests of the library.
