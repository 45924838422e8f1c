[package]
name = "volev"
version = "0.1.0"
edition = "2021"
publish = false

[dependencies]
evdev = { version = "*", features = ["tokio"] }
jni = "*"
libc = "*"
tokio = { version = "*", features = ["macros", "rt", "time"] }
