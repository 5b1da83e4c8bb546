[package]
name = "minimp3"
version = "0.1.0"
edition = "2021"
publish = false

[dependencies]
audio-core = "*"
minimp3-sys = "*"
tokio = { version = "*", features = ["io-util"] }
