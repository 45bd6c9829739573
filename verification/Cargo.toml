[package]
name = "musicbrainz_cuesheet"
version = "0.1.0"
edition = "2021"
publish = false

[dependencies]
chrono = "=0.4.45"
clap = { version = "=4.6.7", features = ["derive"] }
musicbrainz_rs = { version = "=0.5.0", default-features = false, features = ["blocking"] }
reqwest = { version = "=0.11.27", features = ["blocking"] }
