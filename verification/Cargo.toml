[package]
name = "ffmpeg_screen_recorder"
version = "0.1.0"
edition = "2021"
publish = false

[dependencies]
anyhow = "*"
chrono = "*"
clap = { version = "*", features = ["derive"] }
concat-with = "*"
execute = "*"
num_cpus = "*"
terminal_size = "*"
