[package]
name = "music_server"
version = "0.1.0"
edition = "2021"
publish = false

[dependencies]
chrono = "0.4"
nanoid = "0.4"
pwhash = "1"
id3 = "1"
diesel = { version = "2", features = ["postgres", "chrono"] }
rocket = { version = "0.5", features = ["json"] }
rocket_seek_stream = "*"
serde = { version = "1", features = ["derive"] }
dotenvy = "0.15"
env_logger = "*"
log = "0.4"
