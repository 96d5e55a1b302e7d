[package]
name = "gdserial"
version = "0.1.0"
edition = "2021"
publish = false

[dependencies]
godot = "*"
serialport = { version = "4", default-features = false }
