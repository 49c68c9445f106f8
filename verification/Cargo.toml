[package]
name = "xarph-sdk"
version = "0.1.0"
edition = "2021"
publish = false

[dependencies]
dirs = "=7.0.0"
uuid = { version = "=1.29.1", features = ["v4"] }
serde = { version = "=1.0.229", features = ["derive"] }
serde_json = "=1.0.154"
toml = "=1.2.1"
libc = "=0.2.191"
freedesktop-desktop-entry = "=0.7.19"
clap = { version = "4", features = ["derive"] }
tokio = { version = "1", features = ["rt-multi-thread", "macros", "net", "io-util", "time", "sync", "signal"] }
zbus = { version = "4", default-features = false, features = ["tokio"] }
arc-swap = "1"
async-trait = "0.1"
tracing = "0.1"
tracing-subscriber = { version = "0.3", features = ["env-filter"] }
dialoguer = "0.11"
which = "6"
fs-err = "2"
notify = "6"
log = "0.4"
env_logger = "0.11"
