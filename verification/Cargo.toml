[package]
name = "oto"
version = "0.1.0"
edition = "2021"
publish = false

[dependencies]
serde = { version = "1", features = ["derive"] }
serde_json = "1"
directories = "6"
tokio = { version = "1", features = ["time", "rt", "macros"] }
core-foundation = "0.10"
core-graphics = "0.24"
objc2 = "0.6"
objc2-app-kit = "0.3"
objc2-foundation = "0.3"
cpal = "0.15"
