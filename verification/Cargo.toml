[package]
name = "diagnostics"
version = "0.1.0"
edition = "2021"
publish = false

[dependencies]
colored = "=2.2.0"
serde = { version = "=1.0.229", features = ["derive"] }
sysinfo = "=0.31.4"
wmi = "=0.14.5"
