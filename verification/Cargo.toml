[package]
name = "audio_tools"
version = "0.1.0"
edition = "2021"
publish = false

[dependencies]
image = { version = "=0.25.10", default-features = false }
smallvec = "=1.15.2"
