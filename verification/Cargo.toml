[package]
name = "piano_keys"
version = "0.1.0"
edition = "2021"
publish = false

[dependencies]
piano_keyboard = "*"
macroquad = "*"
midir = "*"
