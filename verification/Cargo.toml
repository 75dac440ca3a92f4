[package]
name = "ppaass"
version = "0.1.0"
edition = "2021"
publish = false

[dependencies]
rust-crypto = "0.2.36"
rsa = "0.6"
rand = "0.8"
lz4 = "1"
uuid = { version = "1", features = ["v4"] }
url = "2"
bytes = "1"
tokio = { version = "1", features = ["full"] }
tokio-util = { version = "0.7", features = ["codec"] }
futures = "0.3"
clap = { version = "3.2", features = ["derive"] }
serde = { version = "1", features = ["derive"] }
serde_derive = "1"
toml = "0.5"
tracing = "0.1"
tracing-subscriber = "0.3"
tracing-appender = "0.2"
anyhow = "1"
thiserror = "1"
chrono = "0.4"
httpcodec = "0.2"
bytecodec = "0.4"
pretty-hex = "0.3"
hotwatch = "0.4"
