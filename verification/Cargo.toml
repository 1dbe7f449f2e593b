[package]
name = "netprobe"
version = "0.1.0"
edition = "2021"
publish = false

[dependencies]
chrono = "0.4"
crossbeam-channel = "0.5"
heck = "0.5"
lazy_static = "1"
prometheus = { version = "0.13", default-features = false }
serde = { version = "1", features = ["derive"] }
serde_json = "1"
serde_with = "3"
tokio = { version = "1", features = ["rt", "macros", "net", "io-util", "process", "signal", "time"] }

[dev-dependencies]
regex = "1"
