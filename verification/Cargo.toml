[package]
name = "bluetooth-audio-bridge"
version = "0.1.0"
edition = "2021"
publish = false

[dependencies]
anyhow = "1"
clap = { version = "4", features = ["derive"] }
libc = "0.2"
serde = { version = "1", features = ["derive"] }
serde_json = "1"
tokio = { version = "1", features = ["io-util", "macros", "net", "rt", "signal", "sync", "time"] }
toml = "0.8"
zbus = { version = "5", default-features = false, features = ["tokio"] }
