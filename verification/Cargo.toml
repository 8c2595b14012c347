[package]
name = "emucore"
version = "0.1.0"
edition = "2021"
publish = false

[dependencies]
rsevents = "*"
sdl3 = "*"
unicorn-engine = "*"
