[package]
name = "renderer_rust"
version = "0.1.0"
edition = "2021"
publish = false

[dependencies]
cgmath = "=0.18.0"
egui = "=0.37.0"
egui_glow = { version = "=0.37.0", features = ["winit"] }
glow = "=0.17.0"
glutin = { version = "=0.32.3", default-features = false, features = ["egl", "glx", "x11", "wgl"] }
glutin-winit = { version = "=0.5.0", default-features = false, features = ["egl", "glx", "x11", "wgl"] }
image = { version = "=0.25.10", default-features = false, features = ["jpeg", "png", "bmp", "pnm"] }
raw-window-handle = "=0.6.2"
tobj = "=4.0.5"
winit = { version = "=0.30.13", default-features = false, features = ["rwh_06", "x11"] }
