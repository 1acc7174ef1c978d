[package]
name = "sovereign_core"
version = "0.1.0"
edition = "2021"
publish = false

[dependencies]
num_cpus = "1"
sysinfo = "*"
tracing = "0.1"
tracing-subscriber = { version = "0.3", features = ["env-filter"] }
