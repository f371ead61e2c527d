[package]
name = "antihook"
version = "0.1.0"
edition = "2021"
publish = false

[dependencies]
dirs = "*"
url = "*"
serde_json = "*"
reqwest = { version = "*", default-features = false }
