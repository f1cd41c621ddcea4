[package]
name = "peer_sync"
version = "0.1.0"
edition = "2021"
publish = false

[dependencies]
tokio = { version = "1", features = ["net", "sync", "time", "macros", "rt-multi-thread", "io-util"] }
async-std = "1"
crossterm = "*"
