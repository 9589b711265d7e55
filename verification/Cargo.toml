[package]
name = "life_pipeline"
version = "0.1.0"
edition = "2021"
publish = false

[dependencies]
rand = "0.8"
anyhow = "1"
bytemuck = { version = "1", features = ["derive"] }
pollster = "0.3"
