[package]
name = "ascii_fixer"
version = "0.1.0"
edition = "2021"
publish = false

[dependencies]
iced = { version = "=0.14.0", default-features = false, features = ["image", "thread-pool", "tiny-skia", "x11"] }
open = "=5.4.5"
rfd = { version = "=0.17.2", default-features = false, features = ["xdg-portal"] }
