[package]
name = "alicia_physics"
version = "0.1.0"
edition = "2021"
publish = false

[dependencies]
rapier3d = { version = "=0.36.0", features = ["debug-render"] }
serde = { version = "*", features = ["derive"] }
serde_json = "*"
