[package]
name = "miditoqwerty"
version = "0.1.0"
edition = "2021"
publish = false

[dependencies]
midi-event = "=0.2.1"
midir = "0.8"
confy = "=2.0.0"
serde = { version = "1", features = ["derive"] }
egui = { version = "=0.27.2", default-features = false, features = ["default_fonts"] }
