[package]
name = "grid_game"
version = "0.1.0"
edition = "2021"

[dependencies]
rand = "0.8"
sdl2 = { version = "0.35", features = ["gfx"] }
