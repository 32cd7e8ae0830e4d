[package]
name = "music_player"
version = "0.1.0"
edition = "2021"
publish = false

[dependencies]
discord-rich-presence = "=0.2.5"
