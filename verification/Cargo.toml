[package]
name = "affect_server"
version = "0.1.0"
edition = "2021"
publish = false

[dependencies]
anyhow = "=1.0.104"
async-trait = "=0.1.92"
base64 = "=0.22.1"
chrono = { version = "=0.4.45", default-features = false, features = ["clock", "std"] }
env_logger = "=0.11.11"
futures = "=0.3.34"
jsonwebtoken = "=9.3.1"
log = "=0.4.34"
prost = "=0.13.5"
reqwest = { version = "=0.12.28", default-features = false, features = ["json", "rustls-tls"] }
serde = { version = "=1.0.229", features = ["derive"] }
serde_json = "=1.0.154"
sqlx = { version = "=0.8.6", default-features = false, features = ["postgres", "runtime-tokio", "chrono", "uuid", "migrate"] }
tokio = { version = "=1.54.1", features = ["macros", "rt-multi-thread", "time"] }
toml = "=0.8.23"
tonic = "=0.12.3"
tonic-reflection = "=0.12.3"
tonic-web = "=0.12.3"
tower = { version = "=0.4.13", features = ["timeout", "util"] }
uuid = "=1.29.0"
