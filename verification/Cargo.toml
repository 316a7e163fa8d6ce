[package]
name = "sound_wave_image"
version = "0.1.0"
edition = "2021"
publish = false

[dependencies]
imageproc = "=0.27.0"
rodio = { version = "=0.22.2", default-features = false, features = ["mp3", "wav", "flac", "vorbis"] }
