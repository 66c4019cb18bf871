[package]
name = "switch_life_manager"
version = "0.1.0"
edition = "2021"
publish = false

[dependencies]
anyhow = "1"
arc-swap = "1"
chrono = { version = "0.4", default-features = false, features = ["clock", "serde"] }
crossbeam-channel = "0.5"
ctrlc = "3"
directories = "5"
log = "0.4"
serde = { version = "1", features = ["derive"] }
serde_json = "1"
serde_with = "3"
simplelog = "*"
sysinfo = "*"
tempfile = "3"
thiserror = "1"
