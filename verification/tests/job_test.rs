use transform_video::transcode::job::{dir_takes_writes, JobConfig, VariantSpec};

/// A configuration that passes the input and output checks, so that the
/// later checks can be exercised.
fn cfg_with_input(path: &str) -> JobConfig {
    JobConfig {
        input: path.to_string(),
        output_dir: String::from("/tmp"),
        ..JobConfig::default()
    }
}

fn temp_input() -> tempfile::NamedTempFile {
    tempfile::NamedTempFile::new().unwrap()
}

fn path_text(file: &tempfile::NamedTempFile) -> String {
    file.path().to_str().unwrap().to_string()
}

#[test]
fn default_matches_reference_script() {
    let cfg = JobConfig::default();
    let names: Vec<&str> = cfg.variants.iter().map(|v| v.name).collect();
    assert_eq!(names, ["1080p", "720p", "480p"]);
    assert_eq!(cfg.variants[0].height, 1080);
    assert_eq!(cfg.variants[0].bit_rate_kbps, 4000);
    assert_eq!(cfg.variants[0].max_rate_kbps, 5000);
    assert_eq!(cfg.variants[0].buf_size_kbps, 8000);
    assert_eq!(cfg.variants[1].height, 720);
    assert_eq!(cfg.variants[2].bit_rate_kbps, 1200);
    assert_eq!(cfg.fps, 30);
    assert_eq!(cfg.segment_secs, 10);
    assert_eq!(cfg.audio_bitrate_kbps, 128);
}

#[test]
fn validate_rejects_empty_variants() {
    let file = temp_input();
    let mut cfg = cfg_with_input(&path_text(&file));
    cfg.variants.clear();
    assert_eq!(cfg.validate().unwrap_err(), "至少需要启用一档分辨率");
}

#[test]
fn validate_rejects_zero_fps_and_segment() {
    let file = temp_input();
    let mut cfg = cfg_with_input(&path_text(&file));
    cfg.fps = 0;
    assert!(cfg.validate().is_err());
    let mut cfg = cfg_with_input(&path_text(&file));
    cfg.segment_secs = 0;
    assert!(cfg.validate().is_err());
}

#[test]
fn validate_rejects_missing_input() {
    let cfg = JobConfig {
        input: String::from("/nonexistent/zzz.mp4"),
        ..JobConfig::default()
    };
    assert!(cfg.validate().is_err());
}

#[test]
fn output_root_is_output_dir_plus_input_stem() {
    let cfg = JobConfig {
        input: String::from("/tmp/L3-考点4.mp4"),
        output_dir: String::from("/tmp/out"),
        ..JobConfig::default()
    };
    assert_eq!(cfg.output_root(), String::from("/tmp/out/L3-考点4"));
}

#[test]
fn segment_prefix_derives_from_input_stem() {
    let cfg = JobConfig {
        input: String::from("/tmp/L3-考点4.mp4"),
        ..JobConfig::default()
    };
    assert_eq!(cfg.segment_prefix(), "L3-考点4");
}

#[test]
fn gop_is_fps_times_segment_secs() {
    let cfg = JobConfig::default();
    assert_eq!(cfg.gop(), 300);
}

#[test]
fn validate_gives_each_message_in_order() {
    let file = temp_input();
    let input = path_text(&file);

    let no_name = JobConfig { input: String::new(), ..JobConfig::default() };
    assert_eq!(no_name.validate().unwrap_err(), "未选择输入文件");

    let missing = JobConfig { input: String::from("/nonexistent/zzz.mp4"), ..JobConfig::default() };
    assert_eq!(missing.validate().unwrap_err(), "输入文件不存在:/nonexistent/zzz.mp4");

    let no_output = JobConfig { input: input.clone(), ..JobConfig::default() };
    assert_eq!(no_output.validate().unwrap_err(), "未选择输出目录");

    let mut zero_fps = cfg_with_input(&input);
    zero_fps.fps = 0;
    assert_eq!(zero_fps.validate().unwrap_err(), "fps 必须大于 0");

    let mut zero_seg = cfg_with_input(&input);
    zero_seg.segment_secs = 0;
    assert_eq!(zero_seg.validate().unwrap_err(), "分段时长必须大于 0 秒");

    let mut zero_rate = cfg_with_input(&input);
    zero_rate.variants[1].bit_rate_kbps = 0;
    zero_rate.variants[2].bit_rate_kbps = 0;
    assert_eq!(zero_rate.validate().unwrap_err(), "720p 码率必须大于 0");

    assert_eq!(cfg_with_input(&input).validate(), Ok(()));
}

#[test]
fn validate_with_takes_the_existence_of_the_input_as_given() {
    let cfg = cfg_with_input("/nonexistent/zzz.mp4");
    assert_eq!(cfg.validate_with(true, true), Ok(()));
    assert_eq!(cfg.validate_with(false, true).unwrap_err(), "输入文件不存在:/nonexistent/zzz.mp4");
    assert_eq!(cfg.validate_with(true, false).unwrap_err(), "输出目录不可写:/tmp");
}

#[test]
fn output_root_without_extension_and_without_file_name() {
    let cfg = JobConfig {
        input: String::from("/videos/clip"),
        output_dir: String::from("/out"),
        ..JobConfig::default()
    };
    assert_eq!(cfg.segment_prefix(), "clip");
    assert_eq!(cfg.output_root(), "/out/clip");
    let none = JobConfig { input: String::new(), output_dir: String::from("/out"), ..JobConfig::default() };
    assert_eq!(none.segment_prefix(), "");
}

#[test]
fn variant_dirs_one_per_rendition_then_audio() {
    let cfg = JobConfig {
        input: String::from("/tmp/L3-考点4.mp4"),
        output_dir: String::from("/tmp/out"),
        ..JobConfig::default()
    };
    assert_eq!(
        cfg.variant_dirs(true),
        vec![
            "/tmp/out/L3-考点4/1080p".to_string(),
            "/tmp/out/L3-考点4/720p".to_string(),
            "/tmp/out/L3-考点4/480p".to_string(),
            "/tmp/out/L3-考点4/audio".to_string(),
        ]
    );
    assert_eq!(cfg.variant_dirs(false).len(), 3);
}

#[test]
fn gop_follows_the_settings() {
    let cfg = JobConfig { fps: 25, segment_secs: 6, ..JobConfig::default() };
    assert_eq!(cfg.gop(), 150);
    let v = VariantSpec { name: "x", height: 2, bit_rate_kbps: 1, max_rate_kbps: 1, buf_size_kbps: 1 };
    assert_eq!(v.clone(), v);
}

#[test]
fn output_root_takes_the_stem_override() {
    let cfg = JobConfig {
        input: String::from("testsrc2=duration=2:size=320x240:rate=30"),
        output_dir: String::from("/out"),
        output_stem: Some(String::from("lavfi-test")),
        ..JobConfig::default()
    };
    assert_eq!(cfg.output_root(), "/out/lavfi-test");
    let dirs = cfg.variant_dirs(true);
    assert_eq!(dirs, ["/out/lavfi-test/1080p", "/out/lavfi-test/720p", "/out/lavfi-test/480p", "/out/lavfi-test/audio"]);
}

#[test]
fn validate_given_takes_every_answer_as_given() {
    let cfg = cfg_with_input("/nonexistent/zzz.mp4");
    assert_eq!(cfg.validate_given(false, true, true).unwrap_err(), "未选择输入文件");
    assert_eq!(cfg.validate_given(true, false, true).unwrap_err(), "输入文件不存在:/nonexistent/zzz.mp4");
    assert_eq!(cfg.validate_given(true, true, false).unwrap_err(), "输出目录不可写:/tmp");
    assert_eq!(cfg.validate_given(true, true, true), Ok(()));
    let empty = JobConfig { input: String::new(), output_dir: String::from("/tmp"), ..JobConfig::default() };
    assert_eq!(empty.validate_given(true, true, true), Ok(()));
    let no_output = JobConfig { output_dir: String::new(), ..cfg_with_input("/a.mp4") };
    assert_eq!(no_output.validate_given(true, true, false).unwrap_err(), "未选择输出目录");
}

#[test]
fn validate_refuses_an_output_directory_that_takes_no_writes() {
    let file = temp_input();
    let input = path_text(&file);
    let missing_dir = JobConfig {
        input: input.clone(),
        output_dir: String::from("/nonexistent/out_dir"),
        ..JobConfig::default()
    };
    assert_eq!(missing_dir.validate().unwrap_err(), "输出目录不可写:/nonexistent/out_dir");
    // a regular file is no directory
    let file_as_dir = JobConfig { input: input.clone(), output_dir: input.clone(), ..JobConfig::default() };
    assert_eq!(file_as_dir.validate().unwrap_err(), format!("输出目录不可写:{input}"));
    let dir = tempfile::tempdir().unwrap();
    let ok = JobConfig {
        input,
        output_dir: dir.path().to_str().unwrap().to_string(),
        ..JobConfig::default()
    };
    assert_eq!(ok.validate(), Ok(()));
}

#[test]
fn dir_takes_writes_needs_a_directory_without_read_only_permissions() {
    assert!(dir_takes_writes(Some((true, false))));
    assert!(!dir_takes_writes(Some((true, true))));
    assert!(!dir_takes_writes(Some((false, false))));
    assert!(!dir_takes_writes(None));
}
