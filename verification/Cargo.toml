[package]
name = "fsengine"
version = "0.1.0"
edition = "2021"
publish = false

[dependencies]
dirs = "*"
trash = "*"
serde = { version = "*", features = ["derive"] }
