[package]
name = "auteur"
version = "0.1.0"
edition = "2021"
publish = false

[dependencies]
axum = { version = "*", features = ["ws"] }
serde = { version = "*", features = ["derive"] }
serde_json = "*"
tera = "*"
tokio = { version = "*", features = ["macros", "net", "rt-multi-thread", "sync"] }
tower-http = { version = "*", features = ["fs"] }
