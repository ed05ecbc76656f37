[package]
name = "emoji_picker"
version = "0.1.0"
edition = "2021"
publish = false

[dependencies]
emojis = "=0.9.0"
arboard = { version = "=3.6.1", default-features = false }
clap = { version = "=4.6.7", features = ["derive"] }
