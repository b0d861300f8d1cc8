[package]
name = "cargo-serve"
version = "0.1.0"
edition = "2021"
publish = false

[dependencies]
serde_json = "1"
libc = "0.2"
clap = { version = "4", features = ["derive"] }
tokio = { version = "1", features = ["full"] }
notify = "8"
ignore = "0.4"
cargo_metadata = "*"
thiserror = "2"
tracing = "0.1"
tracing-subscriber = { version = "0.3", features = ["env-filter"] }

[dev-dependencies]
tempfile = "3"
