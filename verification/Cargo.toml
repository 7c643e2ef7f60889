[package]
name = "lock_export"
version = "0.1.0"
edition = "2021"
publish = false

[dependencies]
clap = { version = "=4.6.7", features = ["derive"] }
miette = "=7.6.0"
rattler_conda_types = "=0.27.6"
rattler_digest = "=1.0.2"
rattler_lock = "=0.22.20"
tracing = "=0.1.44"
url = "=2.5.8"

[dev-dependencies]
typed-path = "=0.9.3"
