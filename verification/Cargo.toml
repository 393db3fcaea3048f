[package]
name = "filer_core"
version = "0.1.0"
edition = "2021"
publish = false

[dependencies]
tokio = { version = "1", features = ["sync", "rt", "rt-multi-thread", "time"] }
zip = { version = "*", default-features = false, features = ["deflate"] }
rusqlite = { version = "*", features = ["bundled"] }
image = { version = "*", default-features = false, features = ["png", "jpeg"] }
serde = { version = "1", features = ["derive"] }
