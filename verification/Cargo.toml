[package]
name = "foxglove_bridge"
version = "0.1.0"
edition = "2021"
publish = false

[dependencies]
anyhow = "*"
clap = { version = "4", features = ["derive"] }
foxglove-ws = "*"
prost-reflect = "*"
serde = { version = "1", features = ["derive"] }
serde_json = "*"
serde_yaml = "*"
thiserror = "*"
tokio = { version = "1", features = ["rt-multi-thread", "macros", "signal", "io-std", "io-util", "process", "time", "sync"] }
tracing = "*"
zenoh = "=0.7.2-rc"
zenoh-config = "=0.7.2-rc"
