[package]
name = "mirrorx_core"
version = "0.1.0"
edition = "2021"
publish = false

[dependencies]
anyhow = "1"
cpal = "0.15"
crossbeam = "0.8"
libc = "0.2"
scopeguard = "1"
tokio = { version = "1", features = ["sync", "rt", "rt-multi-thread", "time"] }
tracing = "0.1"
