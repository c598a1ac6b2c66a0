[package]
name = "peanutbutter"
version = "0.1.0"
edition = "2021"
publish = false

[dependencies]
quanta = "*"
dashmap = "*"
indexmap = "*"
axum = "*"
serde = { version = "*", features = ["derive"] }
tokio = { version = "*", features = ["macros", "rt-multi-thread", "net", "time"] }
