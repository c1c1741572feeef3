[package]
name = "bmregression"
version = "0.1.0"
edition = "2021"
publish = false

[dependencies]
clap = { version = "4", features = ["derive"] }
tempdir = "0.3"
yaml-rust = "0.4"
