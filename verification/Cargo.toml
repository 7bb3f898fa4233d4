[package]
name = "pecast_broadcast"
version = "0.1.0"
edition = "2021"
publish = false

[dependencies]
versions = "=8.0.1"
sha2 = "=0.10.9"
nipper = "=0.1.9"
tokio = { version = "=1.54.1", features = ["fs", "net", "io-util", "rt-multi-thread", "macros", "sync", "time"] }
reqwest = { version = "=0.12.28", default-features = false, features = ["json", "rustls-tls"] }
serde = { version = "=1.0.229", features = ["derive"] }
serde_json = "=1.0.154"
serde-xml-rs = "=0.8.2"
log = "=0.4.34"
chrono = "=0.4.45"
deser-hjson = "=2.2.6"
clap = { version = "=4.6.7", features = ["derive"] }
env_logger = "=0.11.11"
