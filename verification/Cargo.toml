[package]
name = "jit_shipper"
version = "0.1.0"
edition = "2021"
publish = false

[dependencies]
serde_json = "1"
dirs = "4"
reqwest = { version = "0.11", features = ["blocking"] }
zip = { version = "0.6", default-features = false, features = ["deflate"] }
dialoguer = { version = "0.10", default-features = false }
eframe = "0.17"
