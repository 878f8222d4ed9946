[package]
name = "theme_watch"
version = "0.1.0"
edition = "2021"
publish = false

[dependencies]
anyhow = "1"
chrono = "0.4"
sunrise = "1"
tokio = { version = "1", features = ["macros", "rt", "sync", "time"] }
tokio-stream = "0.1"
zbus = { version = "5", default-features = false, features = ["tokio"] }
