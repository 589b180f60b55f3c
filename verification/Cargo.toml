[package]
name = "druid_text"
version = "0.1.0"
edition = "2021"
publish = false

[dependencies]
xi-rope = "0.3"
piet = "0.1"
winapi = { version = "0.3", features = ["minwindef", "shellscalingapi", "wingdi", "winuser"] }
win-win = "*"
