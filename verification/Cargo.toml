[package]
name = "uad_ng"
version = "0.1.0"
edition = "2021"
publish = false

[dependencies]
iced = { version = "0.13", default-features = false, features = ["tiny-skia", "advanced"] }
chrono = { version = "0.4", default-features = false, features = ["clock"] }
dark-light = "2.0"
