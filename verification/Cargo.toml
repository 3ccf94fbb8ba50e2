[package]
name = "platform_path"
version = "0.1.0"
edition = "2021"
publish = false

[dependencies]
directories = "*"
camino = "*"
serde_json = "*"
serde_yaml = "*"
structopt = "*"
anyhow = "*"
