[package]
name = "snake_game"
version = "0.1.0"
edition = "2021"
publish = false

[dependencies]
crossterm = "0.26"
quad-snd = "*"
rand = "0.8"
