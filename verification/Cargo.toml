[package]
name = "oblivion_ui"
version = "0.1.0"
edition = "2021"
publish = false

[dependencies]
clap = { version = "4", features = ["derive"] }
sdl2 = "*"
thiserror = "1"
