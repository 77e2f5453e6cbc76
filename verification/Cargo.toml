[package]
name = "subd"
version = "0.1.0"
edition = "2021"
publish = false

[dependencies]
anyhow = "*"
obws = "*"
reqwest = { version = "*", default-features = false }
rodio = "*"
serde = { version = "*", features = ["derive"] }
serde_json = "*"
tokio = { version = "*", features = ["rt-multi-thread", "macros", "sync", "time"] }
