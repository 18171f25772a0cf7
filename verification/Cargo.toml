[package]
name = "imclicker_v2"
version = "0.1.0"
edition = "2021"
publish = false

[dependencies]
directories = "=5.0.1"
eframe = { version = "=0.24.1", default-features = false, features = ["default_fonts", "glow", "x11"] }
egui = "=0.24.1"
serde = { version = "=1.0.229", features = ["derive"] }
serde_json = "=1.0.154"
windows-sys = { version = "=0.59.0", features = ["Win32_Foundation", "Win32_System_Threading", "Win32_UI_Input_KeyboardAndMouse"] }
