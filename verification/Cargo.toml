[package]
name = "band_split"
version = "0.1.0"
edition = "2021"
publish = false

[dependencies]
anyhow = "*"
clap = { version = "*", features = ["derive"] }
hound = "*"
minimp3 = "*"
num-complex = "*"
realfft = "*"
tracing = "*"
tracing-subscriber = "*"
