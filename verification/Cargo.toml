[package]
name = "audio_playback_timeline"
version = "0.1.0"
edition = "2021"
publish = false

[dependencies]
cpal = "*"
