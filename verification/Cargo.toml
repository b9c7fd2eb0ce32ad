[package]
name = "ltrait_plugins"
version = "0.1.0"
edition = "2021"
publish = false

[dependencies]
ltrait = "*"
nucleo-matcher = "*"
tui-input = "*"
crossterm = { version = "*", features = ["event-stream"] }
ratatui = "*"
tokio = { version = "*", features = ["rt", "sync", "time"] }
futures = "*"
tracing = "*"
chrono = "*"
rusqlite = { version = "*", features = ["bundled", "chrono"] }
dirs = "*"
freedesktop-desktop-entry = "*"
freedesktop-icons = "*"
image = { version = "*", default-features = false, features = ["png"] }
base64 = "*"
thiserror = "*"
