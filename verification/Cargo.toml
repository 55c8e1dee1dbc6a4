[package]
name = "speaker_relay"
version = "0.1.0"
edition = "2021"
publish = false

[dependencies]
actix-web = { version = "=4.18.1", default-features = false, features = ["macros"] }
clap = "=2.34.0"
flexi_logger = "0.18"
futures = "=0.3.34"
libc = "=0.2.191"
log = "=0.4.34"
mime = "=0.3.17"
serde_json = "=1.0.154"
tokio = { version = "=1.54.1", features = ["process", "io-util"] }
