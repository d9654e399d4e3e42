[package]
name = "image_intensity"
version = "0.1.0"
edition = "2021"
publish = false

[dependencies]
image = "*"
axum = { version = "*", features = ["multipart"] }
tokio = { version = "*", features = ["macros", "rt-multi-thread", "net"] }
serde = { version = "*", features = ["derive"] }
tower-http = { version = "*", features = ["cors"] }
utoipa = "*"
bytes = "*"
