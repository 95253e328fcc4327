[package]
name = "fireworks"
version = "0.1.0"
edition = "2021"
publish = false

[dependencies]
ncurses = "5.101"
rand = "0.7"
