[package]
name = "deft_winit"
version = "0.1.0"
edition = "2021"
publish = false

[dependencies]
smol_str = "=0.2.2"
dpi = "=0.1.2"
raw-window-handle = "=0.6.2"
libc = "=0.2.191"
deft-emscripten-sys = "=0.1.0"
objc2 = "=0.5.3"
objc2-foundation = { version = "=0.2.2", features = ["all"] }
objc2-ui-kit = { version = "=0.2.2", features = ["all"] }
