[package]
name = "chess_gui"
version = "0.1.0"
edition = "2021"
publish = false

[dependencies]
chess = "=3.2.0"
ggez = { version = "=0.9.3", default-features = false }
