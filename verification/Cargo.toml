[package]
name = "game_enby"
version = "0.1.0"
edition = "2021"
publish = false

[dependencies]
bytemuck = "=1.25.2"
zendian = { version = "=1.0.0", features = ["bytemuck"] }
sdl3 = "=0.22.0"
