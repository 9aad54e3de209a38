[package]
name = "leto"
version = "0.1.0"
edition = "2021"
publish = false

[dependencies]
erris = "*"
serde = { version = "1", features = ["derive"] }
serde_json = "1"
serde_path_to_error = "0.1"
validator = { version = "0.20", features = ["derive"] }
actix-web = { version = "4", default-features = false, features = ["macros"] }
axum = { version = "0.8", default-features = false, features = ["json"] }
poem = { version = "3", default-features = false }
tower = { version = "0.5", default-features = false }
http = "1"
http-body = "1"
tracing = "0.1"
uuid = { version = "1", features = ["v4"] }
opentelemetry = "0.30"
tracing-opentelemetry = "0.31"
pin-project = "1"
thiserror = "2"
