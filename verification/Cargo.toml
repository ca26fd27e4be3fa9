[package]
name = "gravity_crop"
version = "0.1.0"
edition = "2021"
publish = false

[dependencies]
image = "*"
rustface = "*"
clap = { version = "*", features = ["derive"] }
eyre = "*"
indicatif = "*"
rayon = "*"
tracing = "*"
tracing-subscriber = "*"
