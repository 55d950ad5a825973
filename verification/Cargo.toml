[package]
name = "flashcards"
version = "0.1.0"
edition = "2021"
publish = false

[dependencies]
clap = { version = "*", features = ["derive"] }
ratatui = "*"
serde = { version = "*", features = ["derive"] }
toml = "*"
