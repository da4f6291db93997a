[package]
name = "bedrockd"
version = "0.1.0"
edition = "2021"
publish = false

[dependencies]
chrono = "*"
regex = "*"
uuid = { version = "*", features = ["v4"] }
tokio = { version = "*", features = ["rt", "macros", "process", "sync", "time", "io-util"] }
clap = { version = "*", features = ["derive"] }
serde = { version = "*", features = ["derive"] }
toml = "*"
flate2 = "*"
tar = "*"
fs2 = "*"
fork = "*"
ratatui = "*"
crossterm = "*"
color-eyre = "*"
