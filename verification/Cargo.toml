[package]
name = "raid_race_lib"
version = "0.1.0"
edition = "2021"
publish = false

[dependencies]
bevy = { version = "=0.18.1", default-features = false }
either = "=1.19.0"
rand = "=0.10.3"
clap = { version = "=4.6.7", features = ["derive"] }
serde = { version = "=1.0.229", features = ["derive"] }
strum = { version = "=0.28.0", features = ["derive"] }
num-traits = "=0.2.19"
bitflags = "=2.13.2"
typed-builder = "=0.23.2"
tracing = "=0.1.44"
