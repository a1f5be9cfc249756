[package]
name = "pandacare_auth"
version = "0.1.0"
edition = "2021"
publish = false

[dependencies]
actix-files = "=0.6.10"
actix-web = "=4.18.1"
argon2 = "=0.5.3"
chrono = "=0.4.45"
diesel = { version = "=2.3.14", features = ["postgres", "r2d2", "uuid", "chrono"] }
diesel-derive-enum = { version = "=2.1.0", features = ["postgres"] }
dotenvy = "=0.15.7"
env_logger = "=0.11.11"
jsonwebtoken = "=9.3.1"
log = "=0.4.34"
password-hash = { version = "=0.5.0", features = ["getrandom"] }
r2d2 = "=0.8.10"
rand = "=0.9.5"
serde = { version = "=1.0.229", features = ["derive"] }
serde_json = { version = "=1.0.154", features = ["raw_value"] }
thiserror = "=2.0.21"
uuid = { version = "=1.29.0", features = ["v4", "serde"] }

[dev-dependencies]
pem = "=3.0.6"
ring = "=0.17.14"
rsa = "0.9"
