[package]
name = "rustpass"
version = "0.1.0"
edition = "2021"
publish = false

[dependencies]
argon2 = { version = "=0.5.3", features = ["std"] }
chacha20poly1305 = { version = "=0.10.1", features = ["std"] }
hex = "=0.4.3"
zeroize = "=1.9.1"
serde = { version = "=1.0.229", features = ["derive"] }
serde_json = "=1.0.154"
eframe = { version = "=0.36.2", default-features = false, features = ["glow", "x11", "default_fonts"] }
egui = "=0.36.2"
egui-file-dialog = "=0.15.0"
env_logger = "=0.11.11"
rfd = { version = "=0.17.2", default-features = false, features = ["xdg-portal"] }
