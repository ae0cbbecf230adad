[package]
name = "theme_switch"
version = "0.1.0"
edition = "2021"
publish = false

[dependencies]
accesskit = "0.16"
emath = "0.29"
epaint = { version = "0.29", default-features = false }
serde = { version = "1", features = ["derive"] }
