[package]
name = "level_editor"
version = "0.1.0"
edition = "2021"
publish = false

[dependencies]
bevy = { version = "0.17", default-features = false }
egui = { version = "*", default-features = false }
ratatui = { version = "*", default-features = false, features = ["crossterm"] }
serde = { version = "1", features = ["derive"] }
inventory = "0.3"
merge = "0.2"
