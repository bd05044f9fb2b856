[package]
name = "raster_pipeline"
version = "0.1.0"
edition = "2021"
publish = false

[dependencies]
chrono = "*"
futures = "*"
serde = { version = "*", features = ["derive"] }
