[package]
name = "ide_agent"
version = "0.1.0"
edition = "2021"
publish = false

[dependencies]
serde_json = "=1.0.154"
serde = { version = "=1.0.229", features = ["derive"] }
tokio = { version = "=1.54.1", features = ["rt", "rt-multi-thread", "sync", "time", "macros", "fs", "io-util"] }
futures-util = "=0.3.34"
async-trait = "=0.1.92"
uuid = { version = "=1.29.0", features = ["v4"] }
chrono = "=0.4.45"
dirs = "=5.0.1"
walkdir = "=2.5.0"
tracing = "=0.1.44"
thiserror = "=1.0.69"
reqwest = { version = "=0.12.28", features = ["json", "stream"] }
base64 = "=0.22.1"
async-stream = "=0.3.6"
sysinfo = "=0.30.13"
git2 = "=0.19.0"
