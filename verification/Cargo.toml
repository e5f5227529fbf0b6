[package]
name = "tetris"
version = "0.1.0"
edition = "2021"
publish = false

[dependencies]
bitvec = "1"
env_logger = "*"
log = "0.4"
quick-xml = "*"
rlua = "0.17"
rust-ini = "*"
sdl2 = { version = "0.34", features = ["image"] }
