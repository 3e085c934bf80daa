[package]
name = "openlogi-presenter"
version = "0.1.0"
edition = "2021"
publish = false

[dependencies]
anyhow = "1"
async-hid = "*"
clap = { version = "4", features = ["derive"] }
futures-lite = "2"
thiserror = "2"
tokio = { version = "1", features = ["sync", "time", "rt", "macros"] }
tracing = "0.1"
