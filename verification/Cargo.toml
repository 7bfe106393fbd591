[package]
name = "platformer"
version = "0.1.0"
edition = "2021"
publish = false

[dependencies]
glamour = "*"
ordered-float = "*"
serde = { version = "1", features = ["derive"] }
