[package]
name = "seo_meta"
version = "0.1.0"
edition = "2021"
publish = false

[dependencies]
axum = "*"
tokio = { version = "*", features = ["full"] }
tower-http = { version = "*", features = ["fs", "compression-gzip"] }

[dev-dependencies]
serde_json = "*"
