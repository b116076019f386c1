[package]
name = "nvhosts"
version = "0.1.0"
edition = "2021"
publish = false

[dependencies]
argh = "*"
confy = "*"
serde = { version = "*", features = ["derive"] }
toml = "*"
