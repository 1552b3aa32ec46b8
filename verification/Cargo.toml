[package]
name = "romodoro"
version = "0.1.0"
edition = "2021"
publish = false

[dependencies]
config = "0.11"
notify = "4"
penrose = "0.2"
simplelog = "*"
tracing = { version = "*", features = ["log"] }
