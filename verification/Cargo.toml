[package]
name = "knotty"
version = "0.1.0"
edition = "2021"
publish = false

[dependencies]
serde = { version = "1", features = ["derive"] }
serde_json = "1"
toml = "*"
rustix = { version = "1", features = ["event", "fs", "pty", "termios", "process", "pipe", "stdio"] }
libghostty-vt-sys = "0.2"
