[package]
name = "game_of_life"
version = "0.1.0"
edition = "2021"
publish = false

[dependencies]
bv = "=0.11.1"
rand = "=0.8.8"
clap = { version = "=3.2.25", features = ["derive"] }
ncurses = "=5.101.0"
