[package]
name = "linux_kernel_monitor"
version = "0.1.0"
edition = "2021"
publish = false

[dependencies]
clap = { version = "4", features = ["derive"] }
crossbeam-channel = "0.5"
serde = { version = "1", features = ["derive"] }
sysinfo = "*"
toml = "*"
