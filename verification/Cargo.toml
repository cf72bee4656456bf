[package]
name = "cursor_manager"
version = "0.1.0"
edition = "2021"
publish = false

[dependencies]
anyhow = "1"
chrono = { version = "0.4", default-features = false, features = ["clock", "std", "serde"] }
dirs = "5"
fs_extra = "1"
path-clean = "1"
rand = "0.8"
serde = { version = "1", features = ["derive"] }
serde_json = "1"
sysinfo = { version = "0.30", default-features = false }
thiserror = "1"
tokio = { version = "1", default-features = false, features = ["time", "macros", "rt-multi-thread"] }
tracing = "0.1"
tracing-subscriber = { version = "0.3", default-features = false, features = ["env-filter", "fmt"] }
validator = { version = "0.18", features = ["derive"] }
