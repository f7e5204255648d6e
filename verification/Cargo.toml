[package]
name = "transform_video"
version = "0.1.0"
edition = "2021"
publish = false

[dependencies]
anyhow = "=1.0.104"
ffmpeg-next = "=9.0.0"
rfd = "=0.17.2"
smol = "=2.0.2"
target-lexicon = "*"

[dev-dependencies]
tempfile = "=3.27.0"
