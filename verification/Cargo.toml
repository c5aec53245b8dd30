[package]
name = "auth_service"
version = "0.1.0"
edition = "2021"
publish = false

[dependencies]
async-trait = "=0.1.92"
axum = "=0.7.9"
serde = { version = "=1.0.229", features = ["derive"] }
tokio = { version = "=1.53.2", features = ["macros", "net", "rt-multi-thread", "sync"] }
tower-http = { version = "=0.5.2", features = ["fs"] }
