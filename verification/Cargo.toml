[package]
name = "fuel_core"
version = "0.1.0"
edition = "2021"
publish = false

[dependencies]
anyhow = "*"
libtest-mimic = "*"
rocksdb = "*"
serde = { version = "*", features = ["derive"] }
thiserror = "*"
tokio = { version = "*", features = ["sync", "time", "rt", "rt-multi-thread", "macros"] }
toml = "*"
tracing = "*"

[dev-dependencies]
tempfile = "*"
