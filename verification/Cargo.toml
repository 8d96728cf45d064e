[package]
name = "aspeak"
version = "0.1.0"
edition = "2021"
publish = false

[dependencies]
anyhow = "1"
bytes = "1"
chrono = { version = "0.4", default-features = false, features = ["clock", "std"] }
clap = { version = "4", features = ["derive"] }
color-eyre = "0.6"
colored = "2"
dirs = "5"
encoding_rs = "0.8"
encoding_rs_io = "0.1"
env_logger = "0.10"
futures-util = { version = "0.3", features = ["sink"] }
hyper = { version = "0.14", features = ["client", "http1"] }
log = "0.4"
open = "5"
reqwest = { version = "0.11", default-features = false, features = ["json", "socks", "rustls-tls"] }
rodio = "0.17"
serde = { version = "1", features = ["derive"] }
tokio = { version = "1", features = ["rt", "net", "time", "io-util"] }
tokio-socks = "0.5"
tokio-tungstenite = { version = "0.20", features = ["rustls-tls-webpki-roots"] }
toml = "0.8"
url = "2"
uuid = { version = "1", features = ["v4"] }
xml-rs = "0.8"
