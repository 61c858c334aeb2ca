[package]
name = "instance"
version = "0.1.0"
edition = "2021"
publish = false

[dependencies]
clap = "2"
home = "*"
miette = "*"
rayon = "1"
serde = { version = "1", features = ["derive"] }
toml = "*"
