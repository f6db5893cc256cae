[package]
name = "fping_exporter"
version = "0.1.0"
edition = "2021"
publish = false

[dependencies]
anyhow = "1"
clap = "2"
humantime = "2"
lazy_static = "1"
log = "0.4"
nix = "0.20"
pretty_env_logger = "0.4"
prometheus = "0.13"
regex = "1"
semver = "1"
thiserror = "1"
tokio = { version = "1", features = ["io-util", "macros", "process", "rt-multi-thread", "signal", "sync", "time"] }
warp = "0.3"
