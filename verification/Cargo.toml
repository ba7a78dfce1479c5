[package]
name = "renskin"
version = "0.1.0"
edition = "2021"
publish = false

[dependencies]
image = { version = "0.25", default-features = false, features = ["png"] }
regex = "1"
serde = { version = "1", features = ["derive"] }
serde_json = "1"
thiserror = "1"
dotenvy = "0.15"
async-std = { version = "1", features = ["attributes"] }
tide = "0.16"
tide-prometheus = "*"
surf = { version = "2", default-features = false, features = ["h1-client-rustls"] }
sqlx = { version = "*", default-features = false, features = ["mysql", "runtime-async-std"] }
