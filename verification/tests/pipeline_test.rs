use transform_video::app_state::{AppState, Status};
use transform_video::transcode::event::JobEvent;
use transform_video::transcode::job::{JobConfig, VariantSpec};
use transform_video::transcode::pipeline::{
    abuffer_args, aspect_ratio, buffer_args, channel_layout_name, done_line, drops_audio,
    finish_event, graph_spec, header_due, no_output_error, panic_event, pick_encoder, pixel_format_name, route_packet, sink_name,
    probe_finished, probe_route, skipped_frames_line, tallest_variant, PROBE_MAX_PACKETS, video_encoder_options, Outcome, PacketQueue, PacketRoute,
};

fn v(name: &'static str, height: u32) -> VariantSpec {
    VariantSpec { name, height, bit_rate_kbps: 1000, max_rate_kbps: 1500, buf_size_kbps: 2000 }
}

#[test]
fn graph_spec_adds_audio_branch() {
    let mut job = JobConfig::default();
    job.variants.truncate(1);
    let video = "[v_in]split=1[v0];[v0]scale=w=-2:h=1080:force_original_aspect_ratio=decrease:force_divisible_by=2,fps=30,format=yuv420p[s0]";
    assert_eq!(graph_spec(&job, false), video);
    assert_eq!(
        graph_spec(&job, true),
        format!("{video};[a_in]aformat=sample_fmts=fltp:sample_rates=48000:channel_layouts=stereo[sa]")
    );
    assert_eq!(sink_name(0), "s0");
    assert_eq!(sink_name(17), "s17");
}

#[test]
fn source_arguments() {
    assert_eq!(
        buffer_args(320, 240, "yuv420p", 1, 30, 1, 1),
        "video_size=320x240:pix_fmt=yuv420p:time_base=1/30:pixel_aspect=1/1"
    );
    assert_eq!(
        buffer_args(1920, 1080, "nv12", -1, 90000, 4, 3),
        "video_size=1920x1080:pix_fmt=nv12:time_base=-1/90000:pixel_aspect=4/3"
    );
    assert_eq!(
        abuffer_args(1, 48000, 44100, "fltp", "stereo"),
        "time_base=1/48000:sample_rate=44100:sample_fmt=fltp:channel_layout=stereo"
    );
    assert_eq!(aspect_ratio(0, 1), (1, 1));
    assert_eq!(aspect_ratio(16, 0), (1, 1));
    assert_eq!(aspect_ratio(16, 15), (16, 15));
    assert_eq!(pixel_format_name(None), "yuv420p");
    assert_eq!(pixel_format_name(Some("p010le")), "p010le");
    assert_eq!(channel_layout_name(None), "stereo");
    assert_eq!(channel_layout_name(Some("")), "stereo");
    assert_eq!(channel_layout_name(Some("5.1(side)")), "5.1(side)");
}

#[test]
fn tallest_variant_is_the_last_of_the_tallest() {
    assert_eq!(tallest_variant(&Vec::new()), None);
    assert_eq!(tallest_variant(&JobConfig::default().variants), Some(0));
    assert_eq!(tallest_variant(&vec![v("a", 480), v("b", 1080), v("c", 720), v("d", 1080)]), Some(3));
}

#[test]
fn encoder_options_of_a_rendition() {
    let d = video_encoder_options(&JobConfig::default().variants[0], 300);
    assert_eq!(d.get("maxrate"), Some("5000k"));
    assert_eq!(d.get("bufsize"), Some("8000k"));
    assert_eq!(d.get("profile"), Some("high"));
    assert_eq!(d.get("keyint_min"), Some("300"));
}

#[test]
fn packets_are_routed_by_stream() {
    assert_eq!(route_packet(0, 0, Some(1), true), PacketRoute::Video);
    assert_eq!(route_packet(1, 0, Some(1), true), PacketRoute::Audio);
    assert_eq!(route_packet(1, 0, Some(1), false), PacketRoute::Skip);
    assert_eq!(route_packet(2, 0, Some(1), true), PacketRoute::Skip);
    assert_eq!(route_packet(1, 0, None, true), PacketRoute::Skip);
}

#[test]
fn header_waits_for_encoders_and_audio() {
    assert!(!header_due(false, &vec![true, false], false, false));
    assert!(header_due(false, &vec![true, true], false, false));
    assert!(!header_due(false, &vec![true, true], true, false));
    assert!(header_due(false, &vec![true, true], true, true));
    assert!(!header_due(true, &vec![true, true], false, false));
    assert!(drops_audio(true, false));
    assert!(!drops_audio(true, true));
    assert!(!drops_audio(false, false));
}

#[test]
fn queued_packets_come_out_in_order() {
    let mut q: PacketQueue<u32> = PacketQueue::new();
    assert!(!q.header_written());
    assert_eq!(q.submit(1), None);
    assert_eq!(q.submit(2), None);
    assert_eq!(q.submit(3), None);
    assert_eq!(q.open(), vec![1, 2, 3]);
    assert!(q.header_written());
    assert_eq!(q.submit(4), Some(4));
    assert_eq!(q.open(), Vec::<u32>::new());
}

#[test]
fn run_results_end_the_job() {
    let mut s = AppState::default();
    assert!(s.on_event(finish_event(Ok("/out/a".to_string()))));
    assert_eq!(s.status, Status::Done);
    assert!(s.on_event(finish_event(Err(Outcome::Canceled))));
    assert_eq!(s.status, Status::Canceled);
    let failed = Outcome::failed("无法打开输入");
    match &failed {
        Outcome::Failed(m) => assert_eq!(m, "转码失败:无法打开输入"),
        Outcome::Canceled => panic!("expected a failure"),
    }
    assert!(s.on_event(finish_event(Err(failed))));
    assert_eq!(s.status, Status::Failed);
    match panic_event(None) {
        JobEvent::Failed(m) => assert_eq!(m, "转码线程发生 panic"),
        _ => panic!("expected a failure"),
    }
    match panic_event(Some("oops".to_string())) {
        JobEvent::Failed(m) => assert_eq!(m, "oops"),
        _ => panic!("expected a failure"),
    }
}

#[test]
fn skipped_frames_are_reported_only_when_there_are_some() {
    assert_eq!(skipped_frames_line(0), None);
    assert_eq!(skipped_frames_line(3).as_deref(), Some("跳过了 3 个无法解码的帧"));
}

#[test]
fn probing_reads_until_video_and_audio_are_settled() {
    assert_eq!(PROBE_MAX_PACKETS, 400);
    assert!(!probe_finished(false, true, true));
    assert!(!probe_finished(true, false, true));
    assert!(probe_finished(true, false, false));
    assert!(probe_finished(true, true, true));
    assert_eq!(probe_route(0, 0, false, Some(1), false), PacketRoute::Video);
    assert_eq!(probe_route(0, 0, true, Some(1), false), PacketRoute::Skip);
    assert_eq!(probe_route(1, 0, false, Some(1), false), PacketRoute::Audio);
    assert_eq!(probe_route(1, 0, false, Some(1), true), PacketRoute::Skip);
    assert_eq!(probe_route(1, 0, false, None, false), PacketRoute::Skip);
}

#[test]
fn pick_encoder_probes_with_the_tallest_rendition() {
    let cfg = JobConfig {
        variants: vec![v("480p", 480), v("1080p", 1080), v("720p", 720)],
        ..JobConfig::default()
    };
    let seen = std::cell::RefCell::new(Vec::new());
    let mut log = Vec::new();
    let r = pick_encoder(&cfg, 1920, 1080, |name: &str, w, h, b| {
        seen.borrow_mut().push((name.to_string(), w, h, b));
        false
    }, &mut log)
    .unwrap();
    assert_eq!((r.0.as_str(), r.1), ("libx264", false));
    // every probe gets the tallest rung's size and rate
    for (_, w, h, b) in seen.into_inner() {
        assert_eq!((w, h, b), (1920, 1080, 1_000_000));
    }

    let portrait = JobConfig { variants: vec![v("720p", 720)], force_software: true, ..JobConfig::default() };
    let r = pick_encoder(&portrait, 1080, 1920, |_: &str, _, _, _| panic!("no probe"), &mut log).unwrap();
    assert_eq!((r.0.as_str(), r.1), ("libx264", false));
}

#[test]
fn pick_encoder_without_renditions_gives_none() {
    let cfg = JobConfig { variants: Vec::new(), ..JobConfig::default() };
    let mut log = vec!["kept".to_string()];
    assert!(pick_encoder(&cfg, 1920, 0, |_: &str, _, _, _| true, &mut log).is_none());
    assert_eq!(log, ["kept"]);
}

#[test]
fn no_output_error_only_without_header() {
    assert_eq!(no_output_error(true), None);
    assert_eq!(no_output_error(false).as_deref(), Some("没有产生任何输出"));
}

#[test]
fn done_line_names_the_output_root() {
    let cfg = JobConfig {
        input: String::from("/videos/lesson.mp4"),
        output_dir: String::from("/out"),
        ..JobConfig::default()
    };
    assert_eq!(done_line(&cfg), "转码完成:/out/lesson");
    let stem = JobConfig { output_stem: Some(String::from("lavfi-test")), ..cfg };
    assert_eq!(done_line(&stem), "转码完成:/out/lavfi-test");
}
