[package]
name = "rm_referee"
version = "0.1.0"
edition = "2021"
publish = false

[dependencies]
bytes = "*"
tokio = { version = "1", features = ["rt", "sync", "macros", "time", "net", "io-util"] }
tokio-serial = "*"
tokio-util = { version = "*", features = ["codec"] }
futures-util = "*"
anyhow = "*"
thiserror = "*"
tracing = "*"
serialport = { version = "*", default-features = false }
crossbeam-channel = "*"
hex = "*"
deku = "*"

[dev-dependencies]
crc = "*"
