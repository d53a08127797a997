[package]
name = "vpio"
version = "0.1.0"
edition = "2021"
publish = false

[dependencies]
coreaudio-rs = { version = "=0.11.3", default-features = false, features = ["audio_unit", "core_audio"] }
hound = "3.5"
