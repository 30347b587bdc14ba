[package]
name = "notify_dispatch"
version = "0.1.0"
edition = "2021"
publish = false

[dependencies]
a2 = "0.10"
chrono = { version = "0.4", default-features = false, features = ["clock"] }
rusqlite = "0.31"
serde = { version = "1", features = ["derive"] }
tokio = { version = "1", features = ["rt"] }
