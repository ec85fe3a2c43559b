[package]
name = "flappy_dragon"
version = "0.1.0"
edition = "2021"
publish = false

[dependencies]
bracket-lib = "0.8"
rand = "0.8"
tempfile = "3"
zip = { version = "0.6", default-features = false, features = ["deflate"] }
