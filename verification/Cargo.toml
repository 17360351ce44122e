[package]
name = "ra_updater"
version = "0.1.0"
edition = "2021"
publish = false

[dependencies]
flate2 = "=1.1.10"
home = "=0.5.12"
octocrab = "=0.41.2"
reqwest = "=0.13.5"
thiserror = "=2.0.21"
tokio = { version = "=1.53.2", features = ["rt-multi-thread", "macros", "fs", "io-util"] }
