[package]
name = "sprite_stage"
version = "0.1.0"
edition = "2021"
publish = false

[dependencies]
macroquad = "*"
miniquad = "*"
rand = "*"
resvg = "*"
unicode-linebreak = "*"
