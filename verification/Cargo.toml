[package]
name = "arca_music"
version = "0.1.0"
edition = "2021"
publish = false

[dependencies]
dirs = "5"
env_logger = { version = "0.11", default-features = false }
id3 = "1"
mp3-duration = "*"
rodio = { version = "0.19", default-features = false, features = ["mp3"] }
