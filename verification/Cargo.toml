[package]
name = "autolaunch"
version = "0.1.0"
edition = "2021"
publish = false

[dependencies]
url = "2"
regex = "1"
serde = { version = "1", features = ["derive"] }
serde_json = "1"
dirs = "5"
chrono = { version = "0.4", features = ["serde"] }
uuid = { version = "1", features = ["v4"] }
tokio = { version = "1", features = ["full"] }
sqlx = { version = "0.7", default-features = false, features = ["runtime-tokio", "sqlite"] }
git2 = { version = "0.18", default-features = false }
thiserror = "1"
tracing = "0.1"
tracing-subscriber = "0.3"
lazy_static = "1"
