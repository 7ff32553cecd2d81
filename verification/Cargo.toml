[package]
name = "taskoto"
version = "0.1.0"
edition = "2021"
publish = false

[dependencies]
chrono = "0.4"
tabled = "*"
clap = { version = "4", features = ["derive"] }
rusqlite = { version = "*", features = ["bundled"] }
serde_rusqlite = "*"
serde = { version = "1", features = ["derive"] }
serde_derive = "1"
toml = "*"
home = "*"
ansi_term = "0.12"
lazy_static = "1"
