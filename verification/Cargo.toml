[package]
name = "horoscope"
version = "0.1.0"
edition = "2021"
publish = false

[dependencies]
astro = "*"
chrono = "*"
clap = { version = "*", features = ["derive"] }
anyhow = "*"
log = "*"
simplelog = "*"
