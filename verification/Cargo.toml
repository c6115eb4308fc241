[package]
name = "comport"
version = "0.1.0"
edition = "2021"
publish = false

[dependencies]
anyhow = "1"
serde = { version = "1", features = ["derive"] }
serialport = { version = "4", default-features = false }
thiserror = "*"
tokio = { version = "1", features = ["io-util", "sync", "time"] }
tokio-serial = "5"
