[package]
name = "wallpaper"
version = "0.1.0"
edition = "2021"
publish = false

[dependencies]
serde = { version = "1", features = ["derive"] }
serde_json = "1"
shellwords = "1"
web-view = "0.7"
winapi = { version = "0.3", features = ["errhandlingapi", "minwindef", "windef", "winuser"] }
