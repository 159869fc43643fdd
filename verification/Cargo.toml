[package]
name = "easy_proton"
version = "0.1.0"
edition = "2021"
publish = false

[dependencies]
sysinfo = "*"

[dev-dependencies]
serde_json = "*"
