[package]
name = "rustboy"
version = "1.0.0"
edition = "2021"
publish = false

[dependencies]
clap = "=2.34.0"
sdl2 = "=0.38.0"
