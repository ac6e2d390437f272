[package]
name = "button_ears"
version = "0.1.0"
edition = "2021"
publish = false

[dependencies]
anyhow = "1"
argh = "0.1"
evdev = { version = "0.12", features = ["tokio"] }
tokio = { version = "1", features = ["macros", "rt", "rt-multi-thread", "process", "net", "time"] }
tokio-stream = "0.1"
udev = "0.8"
