[package]
name = "cmus_status_line"
version = "0.1.0"
edition = "2021"
publish = false

[dependencies]
dirs = "*"
htmlescape = "0.3"
regex = "1"
ron = "*"
serde = { version = "1", features = ["derive"] }
toml = "*"
