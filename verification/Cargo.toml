[package]
name = "imagepipe"
version = "0.1.0"
edition = "2021"
publish = false

[dependencies]
blake3 = "*"
image = "*"
rawloader = "*"
rayon = "*"
serde = { version = "*", features = ["derive"] }
serde_yaml = "*"
num-traits = "*"
