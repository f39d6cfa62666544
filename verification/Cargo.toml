[package]
name = "game_of_life"
version = "0.1.0"
edition = "2021"
publish = false

[dependencies]
rand = "0.4"
docopt = "0.7"
rustc-serialize = "0.3"
