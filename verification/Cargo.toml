[package]
name = "bridge"
version = "0.1.0"
edition = "2021"
publish = false

[dependencies]
jsonwebtoken = "9"
serde_json = "1"
serde = { version = "1", features = ["derive"] }
actix-web = { version = "4", default-features = false, features = ["cookies"] }
reqwest = { version = "0.12", default-features = false, features = ["stream"] }
futures = "0.3"
toml = "0.8"
time = "0.3"
tracing = "0.1"
url = "2"
pem = "3"

[dev-dependencies]
ring = "0.17"
