[package]
name = "video_sweep"
version = "0.1.0"
edition = "2021"
publish = false

[dependencies]
anyhow = "1"
console = "*"
ffmpeg-sidecar = { version = "*", default-features = false }
futures = "0.3"
humansize = "2"
indicatif = "*"
tokio = { version = "1", features = ["rt-multi-thread", "macros"] }
