[package]
name = "lazytodo"
version = "0.1.0"
edition = "2021"
publish = false

[dependencies]
bincode = "1.3"
chrono = { version = "0.4", default-features = false, features = ["clock"] }
crossterm = "0.28"
ratatui = "0.29"
serde = "1"
