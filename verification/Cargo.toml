[package]
name = "video_player"
version = "0.1.0"
edition = "2021"
publish = false

[dependencies]
ffmpeg-next = "*"
tokio = { version = "1", features = ["rt-multi-thread", "sync", "macros", "time"] }
