[package]
name = "rusty_code"
version = "0.1.0"
edition = "2021"
publish = false

[dependencies]
clap = { version = "4", features = ["derive"] }
detect-lang = "0.1"
jsonpath-rust = "0.3"
macroquad = "0.4"
quad-net = "0.1"
quad-url = "0.1"
