[package]
name = "gtfs_board"
version = "0.1.0"
edition = "2021"
publish = false

[dependencies]
chrono = "0.4"
crossterm = "0.20"
rusqlite = { version = "0.25", features = ["bundled"] }
tui = { version = "0.16", default-features = false, features = ["crossterm"] }
