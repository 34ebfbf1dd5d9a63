[package]
name = "ansi_terminal"
version = "0.1.0"
edition = "2021"
publish = false

[dependencies]
serde = { version = "=1.0.229", features = ["derive"] }
tracing = "0.1"
vte = "=0.15.0"
