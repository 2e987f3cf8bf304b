[package]
name = "micro_sampler"
version = "0.1.0"
edition = "2021"
publish = false

[dependencies]
parking_lot = "0.12.5"
rfd = "0.17.2"
itertools = "0.15.0"
symphonia = { version = "0.5", features = ["mp3", "flac", "ogg", "vorbis", "wav", "pcm"] }
