[package]
name = "tww"
version = "0.1.0"
edition = "2021"
publish = false

[dependencies]
tokio = { version = "=1.38.0", features = ["rt-multi-thread", "sync"] }
futures = { version = "0.3", default-features = false, features = ["std"] }
winit = { version = "0.30", default-features = false, features = ["rwh_06", "x11"] }
wgpu = { version = "22", default-features = false, features = ["wgsl"] }
egui = { version = "0.29", default-features = false, features = ["default_fonts"] }
egui-wgpu = { version = "0.29", default-features = false, features = ["winit", "x11"] }
egui-winit = { version = "0.29", default-features = false, features = ["x11"] }
raw-window-handle = "0.6"
ahash = "0.8"
