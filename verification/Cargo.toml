[package]
name = "chord_composer"
version = "0.2.6"
edition = "2021"
publish = false

[dependencies]
music-timer = "*"
rand = "0.7"
ghakuf = "*"
serde = "1"
serde_derive = "1"
serde_yaml = "0.8"
clap = "2"
rodio = "0.11"
