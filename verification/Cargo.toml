[package]
name = "bygone_battle"
version = "0.1.0"
edition = "2021"
publish = false

[dependencies]
bevy_turborand = "*"
rand = "0.8"
chrono = "0.4"
clap = { version = "4", features = ["derive"] }
crossbeam-channel = "0.5"
tokio = { version = "1", features = ["rt-multi-thread", "macros"] }
tracing = "0.1"
twilight-gateway = "0.15"
twilight-http = "0.15"
twilight-model = "0.15"
twilight-util = { version = "0.15", features = ["builder"] }
