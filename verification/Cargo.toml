[package]
name = "compress_tool"
version = "0.1.0"
edition = "2021"
publish = false

[dependencies]
dirs = "6"
futures-util = "0.3"
image = "0.25"
reqwest = { version = "0.12", features = ["stream"] }
serde = { version = "1", features = ["derive"] }
walkdir = "2"
zip = "2"
