[package]
name = "chip8_core"
version = "0.1.0"
edition = "2021"

[dependencies]
rand = "0.8"
sdl2 = "0.35"
serde = "1"
serde_json = "1"
