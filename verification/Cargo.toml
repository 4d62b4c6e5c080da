[package]
name = "boyohboy"
version = "0.1.0"
edition = "2021"
publish = false

[dependencies]
anyhow = "*"
log = "*"
log4rs = "*"
memmap = "0.7"
sdl2 = "*"
