use transform_video::app_state::{clock_text, status_label, trim_logs, AppState, Status, MAX_LOG_LINES};
use transform_video::transcode::event::{JobEvent, Phase, TranscodeHandle};

#[test]
fn build_config_follows_enabled_variants_and_bitrates() {
    let f = tempfile::NamedTempFile::new().unwrap();
    let s = AppState {
        enabled_variants: [false, true, false],
        bitrates_kbps: [0, 2600, 0],
        input_path: Some(f.path().to_str().unwrap().to_string()),
        output_dir: Some(String::from("/tmp")),
        ..AppState::default()
    };
    let cfg = s.build_config();
    assert_eq!(cfg.variants.len(), 1);
    assert_eq!(cfg.variants[0].name, "720p");
    assert_eq!(cfg.variants[0].bit_rate_kbps, 2600);
    assert_eq!(cfg.variants[0].max_rate_kbps, 3000);
    assert!(matches!(cfg.validate(), Ok(())));
}

#[test]
fn build_config_invalid_without_variants() {
    let f = tempfile::NamedTempFile::new().unwrap();
    let s = AppState {
        enabled_variants: [false, false, false],
        input_path: Some(f.path().to_str().unwrap().to_string()),
        output_dir: Some(String::from("/tmp")),
        ..AppState::default()
    };
    assert_eq!(s.build_config().validate().unwrap_err(), "至少需要启用一档分辨率");
}

#[test]
fn default_state_uses_reference_settings() {
    let s = AppState::default();
    assert_eq!(s.enabled_variants, [true, true, true]);
    assert_eq!(s.bitrates_kbps, [4000, 2500, 1200]);
    assert_eq!((s.fps, s.segment_secs, s.audio_bitrate_kbps), (30, 10, 128));
    assert_eq!(s.status, Status::Idle);
    let cfg = s.build_config();
    assert_eq!(cfg.input, "");
    assert_eq!(cfg.variants.len(), 3);
    assert_eq!(cfg.variants[2].buf_size_kbps, 2500);
}

#[test]
fn status_follows_events() {
    let mut s = AppState::default();
    s.begin_job();
    assert_eq!(s.status, Status::Preparing);
    assert!(!s.on_event(JobEvent::Progress));
    assert_eq!(s.status, Status::Transcoding);
    assert!(!s.on_event(JobEvent::Phase(Phase::Finalizing)));
    assert!(!s.on_event(JobEvent::Progress));
    assert_eq!(s.status, Status::Finalizing);
    assert!(!s.on_event(JobEvent::Log("line".into())));
    assert!(s.on_event(JobEvent::Done("/out/x".into())));
    assert_eq!(s.status, Status::Done);
    assert_eq!(s.output_root.as_deref(), Some("/out/x"));
    assert_eq!(s.logs, vec!["line".to_string()]);

    let mut f = AppState::default();
    assert!(f.on_event(JobEvent::Failed("boom".into())));
    assert_eq!(f.status, Status::Failed);
    assert_eq!(f.logs, vec!["boom".to_string()]);
    assert!(f.on_event(JobEvent::Canceled));
    assert_eq!(f.status, Status::Canceled);
    f.begin_job();
    assert!(f.logs.is_empty());
    assert_eq!(f.output_root, None);
}

#[test]
fn logs_keep_the_newest_lines() {
    let mut s = AppState::default();
    for i in 0..(MAX_LOG_LINES + 5) {
        s.on_event(JobEvent::Log(format!("{i}")));
    }
    assert_eq!(s.logs.len(), MAX_LOG_LINES);
    assert_eq!(s.logs[0], "5");
    assert_eq!(s.logs.last().unwrap(), &format!("{}", MAX_LOG_LINES + 4));

    let mut short = vec!["a".to_string(), "b".to_string()];
    trim_logs(&mut short);
    assert_eq!(short, vec!["a".to_string(), "b".to_string()]);
}

#[test]
fn cancel_is_seen_by_clones() {
    let handle = TranscodeHandle::new();
    let observer = handle.clone();
    assert!(!observer.is_canceled());
    handle.cancel();
    assert!(observer.is_canceled());
    handle.cancel();
    assert!(handle.is_canceled());
}

#[test]
fn typed_settings_are_clamped() {
    let mut s = AppState::default();
    s.set_fps(0);
    assert_eq!(s.fps, 1);
    s.set_fps(1000);
    assert_eq!(s.fps, 240);
    s.set_fps(60);
    assert_eq!(s.fps, 60);
    s.set_segment_secs(0);
    assert_eq!(s.segment_secs, 1);
    s.set_segment_secs(90);
    assert_eq!(s.segment_secs, 60);
    s.set_audio_bitrate(8);
    assert_eq!(s.audio_bitrate_kbps, 32);
    s.set_audio_bitrate(640);
    assert_eq!(s.audio_bitrate_kbps, 512);
    s.set_audio_bitrate(192);
    assert_eq!(s.audio_bitrate_kbps, 192);
    s.set_encoder_choice(transform_video::app_state::ENCODER_SOFTWARE);
    assert!(s.force_software);
    s.set_encoder_choice(transform_video::app_state::ENCODER_AUTO);
    assert!(!s.force_software);
}

#[test]
fn status_lines_and_clock() {
    assert_eq!(status_label(Status::Idle), "就绪");
    assert_eq!(status_label(Status::Preparing), "准备中…");
    assert_eq!(status_label(Status::Transcoding), "转码中…");
    assert_eq!(status_label(Status::Finalizing), "收尾中…");
    assert_eq!(status_label(Status::Done), "已完成");
    assert_eq!(status_label(Status::Canceled), "已取消");
    assert_eq!(status_label(Status::Failed), "失败(见日志)");
    assert_eq!(clock_text(0), "00:00");
    assert_eq!(clock_text(192), "03:12");
    assert_eq!(clock_text(6000), "100:00");
    let mut s = AppState::default();
    assert!(!s.shows_output_button());
    s.on_event(JobEvent::Done("/out".into()));
    assert!(s.shows_output_button());
}
