[package]
name = "tensor_data"
version = "0.1.0"
edition = "2021"
publish = false

[dependencies]
bytemuck = "1"
half = "2"
num-traits = "0.2"
rand = "0.8"
serde = { version = "1", features = ["derive"] }
serde_bytes = "0.11"
