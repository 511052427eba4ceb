[package]
name = "unix_tasks"
version = "0.1.0"
edition = "2021"
publish = false

[dependencies]
bytes = "1"
futures = "0.3"
libc = "0.2"
serde = { version = "1", features = ["derive"] }
serde_json = "1"
tokio = { version = "1", features = ["macros", "net", "rt", "signal", "sync", "time"] }
tokio-util = { version = "0.7", features = ["codec"] }
users = "0.11"
walkdir = "2"
