[package]
name = "stampit"
version = "0.1.1"
edition = "2021"
publish = false

[dependencies]
chrono = { version = "0.4", default-features = false, features = ["clock", "std"] }
clap = "4"
kamadak-exif = "*"
