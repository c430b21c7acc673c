[package]
name = "rust_notes"
version = "0.1.0"
edition = "2021"
publish = false

[dependencies]
dirs = "5"
rfd = { version = "0.14", default-features = false, features = ["xdg-portal", "async-std"] }
