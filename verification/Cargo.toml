[package]
name = "tiko"
version = "0.1.0"
edition = "2021"
publish = false

[dependencies]
serde_json = "*"
reqwest = { version = "*", default-features = false, features = ["stream"] }
tokio = { version = "*", features = ["macros", "rt-multi-thread", "fs", "io-util", "sync", "time"] }
futures-util = "*"
clap = { version = "*", features = ["derive"] }
