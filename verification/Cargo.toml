[package]
name = "meaningless"
version = "0.1.0"
edition = "2021"
publish = false

[dependencies]
rand = "0.10"
dirs = "6"
serde = { version = "1", features = ["derive"] }
serde_json = "1"
web-sys = { version = "0.3", features = ["Window", "Storage"] }
