[package]
name = "midi-msg"
version = "0.1.0"
edition = "2021"
publish = false

[dependencies]
ascii = "1"
bstr = "1"
micromath = "2"
strum = { version = "0.26", features = ["derive"] }
