[package]
name = "dictate_core"
version = "0.1.0"
edition = "2021"
publish = false

[dependencies]
dirs = "*"
reqwest = { version = "*", default-features = false, features = ["blocking", "multipart"] }
which = "*"
