[package]
name = "keystroke_decoder"
version = "0.1.0"
edition = "2021"
publish = false

[dependencies]
regex = "1"
xkbcommon = { version = "0.5", default-features = false }
