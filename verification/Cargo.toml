[package]
name = "sysreport"
version = "0.1.0"
edition = "2021"

[dependencies]
sysinfo = "=0.30.13"
toml = { version = "=0.8.23", features = ["preserve_order"] }
