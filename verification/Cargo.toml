[package]
name = "webgpu_pipeline"
version = "0.1.0"
edition = "2021"
publish = false

[dependencies]
wgpu-types = "0.8"
wgpu-core = "0.8"
deno_core = "0.88"
serde = { version = "1", features = ["derive"] }
