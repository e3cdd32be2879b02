[package]
name = "cloud-speed"
version = "0.1.0"
edition = "2021"
publish = false

[dependencies]
chrono = { version = "=0.4.45", features = ["serde"] }
clap = { version = "=4.6.7", features = ["derive"] }
clap-verbosity-flag = "=3.0.4"
colored = "=3.1.1"
crossterm = "=0.29.0"
env_logger = "=0.11.11"
hickory-resolver = "=0.26.3"
http = "=1.5.0"
log = "=0.4.34"
ratatui = "=0.30.2"
reqwest = { version = "=0.13.5", features = ["json"] }
rustls-connector = { version = "=0.23.9", features = ["native-certs", "webpki-root-certs"] }
serde = { version = "=1.0.229", features = ["derive"] }
serde_json = "=1.0.154"
serde_plain = "=1.0.2"
structmap = "=0.1.6"
structmap-derive = "=0.1.6"
tokio = { version = "=1.54.1", features = ["rt-multi-thread", "macros", "time", "sync", "net"] }
url = "=2.5.8"
