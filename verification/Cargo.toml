[package]
name = "game_menu"
version = "0.1.0"
edition = "2021"
publish = false

[dependencies]
bevy = { version = "0.16", default-features = false, features = ["std", "bevy_log", "bevy_window", "bevy_winit", "x11"] }
bevy_egui = { version = "0.34", default-features = false, features = ["default_fonts"] }
egui = { version = "0.31", default-features = false }
