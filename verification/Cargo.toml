[package]
name = "voxel_build"
version = "0.1.0"
edition = "2021"
publish = false

[dependencies]
bytemuck = { version = "1", features = ["derive"] }
dotenvy = "0.15"
flate2 = "=1.1.10"
gltf = { version = "=1.4.1", default-features = false }
reqwest = { version = "0.11", default-features = false, features = ["json", "rustls-tls"] }
rlua = "0.19"
rocket = "0.5"
rust-s3 = "0.33"
serde = { version = "1", features = ["derive"] }
serde_json = "1"
tokio = { version = "1", features = ["macros", "rt"] }
tracing = "0.1"
tracing-subscriber = "0.3"
