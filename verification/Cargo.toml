[package]
name = "p2p_overlay"
version = "0.1.0"
edition = "2021"
publish = false

[dependencies]
tokio = { version = "1", features = ["rt-multi-thread", "sync", "time", "macros"] }
serde = { version = "1", features = ["derive"] }
thiserror = "1"
bincode = "2"
uuid = "1"
