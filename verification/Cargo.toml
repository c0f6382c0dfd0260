[package]
name = "kcp_link"
version = "0.1.0"
edition = "2021"
publish = false

[dependencies]
anyhow = "1"
bytes = "1"
dashmap = "6"
log = "0.4"
parking_lot = "0.12"
rand = "0.8"
tokio = { version = "1", features = ["macros", "rt", "sync", "time"] }
tracing = "0.1"
zerocopy = "0.7"
