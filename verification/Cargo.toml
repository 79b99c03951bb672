[package]
name = "pachip8risu"
version = "0.1.0"
edition = "2021"
publish = false

[dependencies]
rand = { version = "0.8", default-features = false, features = ["small_rng"] }
ruscii = "*"
playdate = "*"
playdate-controls = "*"
playdate-menu = "*"
crankit-game-loop = "*"
