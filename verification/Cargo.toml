[package]
name = "impit"
version = "0.1.0"
edition = "2021"
publish = false

[dependencies]
reqwest = { version = "=0.12.28", default-features = false, features = ["blocking", "cookies"] }
clap = { version = "=4.6.7", features = ["derive"] }
