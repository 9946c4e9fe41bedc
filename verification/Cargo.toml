[package]
name = "rpaudio"
version = "0.1.0"
edition = "2021"
publish = false

[dependencies]
audiotags = "0.5"
pyo3 = "0.22"
rodio = "0.19"
serde = { version = "1", features = ["derive"] }
serde_json = "1"
