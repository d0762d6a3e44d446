[package]
name = "slate"
version = "0.1.0"
edition = "2021"
publish = false

[dependencies]
chrono = "0.4"
color-eyre = "0.6"
dirs = "*"
ratatui = "*"
rusqlite = { version = "*", features = ["bundled", "chrono"] }
rusqlite_migration = "*"
