[package]
name = "udp_over_tcp"
version = "0.4.0"
edition = "2021"
publish = false

[dependencies]
tokio = { version = "1", features = ["net", "rt", "rt-multi-thread", "time", "io-util", "macros", "sync"] }
futures = "0.3"
err-context = "0.1"
log = "0.4"
env_logger = "0.11"
clap = { version = "4", features = ["derive"] }
nix = { version = "0.29", features = ["socket"] }
lazy_static = "1"
cadence = "1"
