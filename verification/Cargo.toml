[package]
name = "orikou_app"
version = "0.1.0"
edition = "2021"
publish = false

[dependencies]
axum = "0.6"
reqwest = { version = "0.11", default-features = false, features = ["json"] }
tokio = { version = "1", features = ["macros", "rt-multi-thread"] }
tower = "0.4"
tower-http = { version = "0.4", features = ["cors", "fs"] }
serde = { version = "1", features = ["derive"] }
thiserror = "1"
once_cell = "1"
gloo-utils = "0.1"
sqlx = { version = "0.6", default-features = false, features = ["runtime-tokio-rustls", "postgres"] }
dioxus = "0.3"
dioxus-ssr = "0.3"
