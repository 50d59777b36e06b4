[package]
name = "glft_mm_rust"
version = "0.1.0"
edition = "2021"
publish = false

[dependencies]
chrono = "=0.4.45"
serde = { version = "=1.0.229", features = ["derive"] }
serde_json = "=1.0.154"
csv = "=1.4.0"
toml = "=1.1.8"
clap = { version = "=4.6.7", features = ["derive"] }
log = "=0.4.35"
anyhow = "=1.0.104"
uuid = { version = "=1.29.0", features = ["v4"] }
ordered-float = "=5.5.1"
tracing = "=0.1.44"
rust_decimal = "=1.43.0"
rust_decimal_macros = "=1.40.0"
ustr = "=1.1.0"
nautilus-core = { version = "=0.57.0", default-features = false }
nautilus-model = { version = "=0.57.0", default-features = false }
nautilus-common = { version = "=0.57.0", default-features = false }
nautilus-trading = { version = "=0.57.0", default-features = false }
nautilus-backtest = { version = "=0.57.0", default-features = false }
nautilus-data = { version = "=0.57.0", default-features = false }
nautilus-serialization = { version = "=0.57.0", default-features = false }
arrow = { version = "58", default-features = false }
parquet = { version = "58", default-features = false, features = ["arrow", "snap"] }
