[package]
name = "hello_api"
version = "0.1.0"
edition = "2021"
publish = false

[dependencies]
axum = "*"
axum-server = "*"
form_urlencoded = "*"
serde_json = "*"
tokio = { version = "*", features = ["macros", "rt-multi-thread"] }
utoipa = "*"
utoipa-swagger-ui = { version = "*", features = ["axum", "vendored"] }
