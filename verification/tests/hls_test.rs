use transform_video::transcode::hls::{
    audio_stream_index, muxer_options, output_pattern, stream_layout, var_stream_map,
    video_stream_index, StreamKind,
};
use transform_video::transcode::job::JobConfig;

#[test]
fn var_stream_map_matches_reference() {
    let job = JobConfig::default();
    assert_eq!(
        var_stream_map(&job, true),
        "v:0,agroup:audio,name:1080p v:1,agroup:audio,name:720p v:2,agroup:audio,name:480p a:0,agroup:audio,default:yes,name:audio"
    );
}

#[test]
fn var_stream_map_single_variant() {
    let mut job = JobConfig::default();
    job.variants.truncate(1);
    assert_eq!(
        var_stream_map(&job, true),
        "v:0,agroup:audio,name:1080p a:0,agroup:audio,default:yes,name:audio"
    );
}

#[test]
fn var_stream_map_without_audio() {
    let job = JobConfig::default();
    assert_eq!(
        var_stream_map(&job, false),
        "v:0,agroup:audio,name:1080p v:1,agroup:audio,name:720p v:2,agroup:audio,name:480p"
    );
}

#[test]
fn muxer_options_contains_all_reference_keys() {
    let job = JobConfig {
        input: "/tmp/L3-考点4.mp4".into(),
        output_dir: "/tmp/out".into(),
        ..JobConfig::default()
    };
    let d = muxer_options(&job, true);
    assert_eq!(d.get("hls_time"), Some("10"));
    assert_eq!(d.get("hls_playlist_type"), Some("vod"));
    assert_eq!(d.get("hls_flags"), Some("independent_segments"));
    assert_eq!(d.get("hls_segment_type"), Some("fmp4"));
    assert_eq!(d.get("hls_fmp4_init_filename"), Some("init.mp4"));
    assert_eq!(d.get("master_pl_name"), Some("master.m3u8"));
    assert_eq!(
        d.get("hls_segment_filename").unwrap(),
        "/tmp/out/L3-考点4/%v/L3-考点4_%05d.m4s"
    );
    assert!(d.get("var_stream_map").unwrap().contains("name:1080p"));
}

#[test]
fn var_stream_map_audio_only_and_empty() {
    let mut job = JobConfig::default();
    job.variants.clear();
    assert_eq!(var_stream_map(&job, true), "a:0,agroup:audio,default:yes,name:audio");
    assert_eq!(var_stream_map(&job, false), "");
}

#[test]
fn muxer_options_order_and_missing_key() {
    let job = JobConfig {
        input: "/in/a.mov".into(),
        output_dir: "/out".into(),
        segment_secs: 6,
        ..JobConfig::default()
    };
    let d = muxer_options(&job, false);
    let keys: Vec<&str> = d.entries.iter().map(|(k, _)| k.as_str()).collect();
    assert_eq!(
        keys,
        [
            "hls_time",
            "hls_playlist_type",
            "hls_flags",
            "hls_segment_type",
            "hls_fmp4_init_filename",
            "hls_segment_filename",
            "master_pl_name",
            "var_stream_map",
        ]
    );
    assert_eq!(d.get("hls_time"), Some("6"));
    assert_eq!(d.get("hls_segment_filename"), Some("/out/a/%v/a_%05d.m4s"));
    assert_eq!(
        d.get("var_stream_map"),
        Some("v:0,agroup:audio,name:1080p v:1,agroup:audio,name:720p v:2,agroup:audio,name:480p")
    );
    assert_eq!(d.get("hls_tim"), None);
}

#[test]
fn output_pattern_is_per_rendition_playlist() {
    let job = JobConfig {
        input: "/tmp/L3-考点4.mp4".into(),
        output_dir: "/tmp/out".into(),
        ..JobConfig::default()
    };
    assert_eq!(output_pattern(&job), "/tmp/out/L3-考点4/%v/index.m3u8");
}

#[test]
fn streams_follow_the_stream_map_order() {
    assert_eq!(
        stream_layout(3, true),
        vec![StreamKind::Video(0), StreamKind::Video(1), StreamKind::Video(2), StreamKind::Audio]
    );
    assert_eq!(stream_layout(2, false), vec![StreamKind::Video(0), StreamKind::Video(1)]);
    assert_eq!(stream_layout(0, true), vec![StreamKind::Audio]);
    assert_eq!(video_stream_index(3, true, 2), 2);
    assert_eq!(audio_stream_index(3), 3);
    // the entries of the map come in the same order: v:0 v:1 v:2 a:0
    let job = JobConfig::default();
    let map = var_stream_map(&job, true);
    let kinds: Vec<&str> = map.split(' ').map(|e| &e[..3]).collect();
    assert_eq!(kinds, ["v:0", "v:1", "v:2", "a:0"]);
}
