[package]
name = "zombiesplit"
version = "0.1.0"
edition = "2021"
publish = false

[dependencies]
anyhow = "1"
css-color-parser = "0.1"
sdl2 = "*"
serde = { version = "1", features = ["derive"] }
serde_with = "*"
thiserror = "1"
