[package]
name = "nvml_exporter"
version = "0.1.0"
edition = "2021"
publish = false

[dependencies]
anyhow = "1"
chrono = "0.4"
clap = "4"
futures = "0.3"
log = "0.4"
nvml-wrapper = "*"
prometheus = "0.13"
stderrlog = "*"
tokio = { version = "1", features = ["full"] }
universal-service = "*"
warp = "0.3"
windows-service = "*"
