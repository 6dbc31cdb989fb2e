[package]
name = "td-printer-converter"
version = "0.1.0"
edition = "2021"
publish = false

[dependencies]
image = { version = "0.24", default-features = false, features = ["png", "jpeg"] }
clap = { version = "4", features = ["derive"] }
serialport = { version = "4", default-features = false }
gtk4 = "0.6"
glib = "0.17"
