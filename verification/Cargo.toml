[package]
name = "dictation"
version = "0.1.0"
edition = "2021"
publish = false

[dependencies]
tokio = { version = "*", features = ["rt-multi-thread", "macros", "sync", "time"] }
futures-util = "*"
tokio-tungstenite = "*"
serde = { version = "*", features = ["derive"] }
serde_json = "*"
toml = "*"
directories = "*"
