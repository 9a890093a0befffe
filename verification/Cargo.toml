[package]
name = "ready_io"
version = "0.1.0"
edition = "2021"
publish = false

[dependencies]
tokio = { version = "1", features = ["net"] }
async-io = "*"
futures-io = "*"
pin-project-lite = "*"
