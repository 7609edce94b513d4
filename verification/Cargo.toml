[package]
name = "spoticord"
version = "2.2.6"
edition = "2021"
publish = false

[dependencies]
base64 = "=0.22.1"
chrono = { version = "=0.4.45", default-features = false, features = ["clock", "std"] }
serde = { version = "=1.0.229", features = ["derive"] }
serde_json = "=1.0.154"
tokio = { version = "=1.54.1", features = ["rt-multi-thread", "macros", "io-util", "io-std", "sync", "time", "process", "signal"] }
tokio-stream = "=0.1.19"
thiserror = "=2.0.21"
anyhow = "=1.0.104"
log = "=0.4.35"
env_logger = "=0.11.11"
rand = "=0.9.5"
poise = "0.6"
songbird = "0.5"
rustls = "0.23"
zerocopy = "0.8"
async-trait = "0.1"
