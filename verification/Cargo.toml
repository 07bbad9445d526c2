[package]
name = "minion"
version = "0.1.0"
edition = "2021"
publish = false

[dependencies]
anyhow = "1"
backtrace = "0.3"
clap = { version = "3", features = ["derive"] }
crossbeam-channel = "0.5"
errno = "0.2"
futures-util = "0.3"
itoa = "1"
libc = "0.2"
nix = "0.20"
once_cell = "1"
parking_lot = "0.11"
procfs = "0.12"
rand = "0.8"
serde = { version = "1", features = ["derive"] }
serde_json = "1"
tempfile = "3"
thiserror = "1"
tokio = { version = "1", features = ["rt", "time", "net", "macros"] }
tracing = "0.1"
tracing-subscriber = { version = "0.2", features = ["env-filter"] }
