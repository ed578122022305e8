[package]
name = "gameboy_emulator"
version = "0.1.0"
edition = "2021"
publish = false

[dependencies]
log = "0.4"
env_logger = "*"
rfd = "*"
sdl2 = "*"
minifb = "*"
serde = { version = "1", features = ["derive"] }
serde_json = "1"
