[package]
name = "airev"
version = "0.1.0"
edition = "2021"
publish = false

[dependencies]
crossbeam-channel = "0.5"
crossterm = { version = "0.29", features = ["event-stream"] }
futures = "0.3"
git2 = { version = "0.20", default-features = false }
ratatui = "0.30"
rusqlite = { version = "0.32", features = ["bundled"] }
signal-hook = "0.3"
similar = { version = "2", features = ["inline"] }
syntect = { version = "5", default-features = false, features = ["default-fancy"] }
tokio = { version = "1", features = ["rt-multi-thread", "macros", "time", "sync"] }
tokio-rusqlite = "0.6"
toml = "0.8"
uuid = { version = "1", features = ["v4"] }
