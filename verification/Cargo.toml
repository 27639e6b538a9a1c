[package]
name = "drizzle_postgres"
version = "0.1.0"
edition = "2021"
publish = false

[dependencies]
bit-vec = "=0.8.0"
time = { version = "=0.3.55", features = ["parsing"] }
chrono = "=0.4.45"
serde_json = "=1.0.154"
uuid = "=1.29.0"
cidr = "=0.3.2"
