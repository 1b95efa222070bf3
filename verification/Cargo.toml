[package]
name = "open-sessionbar"
version = "0.0.1"
edition = "2021"
publish = false

[dependencies]
serde = { version = "1", features = ["derive"] }
serde_json = "1"
reqwest = { version = "0.12", default-features = false, features = ["blocking", "json"] }
ratatui = "0.29"
crossterm = "0.28"
dirs = "5"
libc = "0.2"
