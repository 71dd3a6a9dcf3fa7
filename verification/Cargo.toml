[package]
name = "mentees"
version = "0.1.0"
edition = "2021"
publish = false

[dependencies]
chrono = { version = "0.4", default-features = false, features = ["std"] }
clap = { version = "4", features = ["derive"] }
cli-table = { version = "0.4", default-features = false }
colored = "2"
dirs = "5"
inquire = { version = "0.7", features = ["date"] }
rusqlite = { version = "0.32", features = ["bundled"] }
