[package]
name = "density_graph"
version = "0.1.0"
edition = "2021"
publish = false

[dependencies]
fastnoise-lite = "*"
rustc_apfloat = "*"
bytemuck = "*"
serde = { version = "*", features = ["derive"] }
serde_json = "*"
