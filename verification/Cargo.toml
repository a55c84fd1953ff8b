[package]
name = "abalone_session"
version = "0.1.0"
edition = "2021"
publish = false

[dependencies]
rustai_abalone = "=0.1.2"
crossbeam-channel = "0.5"
egui = { version = "0.29", default-features = false }
epaint = { version = "0.29", default-features = false }
image = { version = "0.25", default-features = false, features = ["png"] }
