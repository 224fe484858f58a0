[package]
name = "ratings"
version = "0.1.0"
edition = "2021"
publish = false

[dependencies]
serde = { version = "=1.0.229", features = ["derive"] }
serde_json = { version = "=1.0.154", features = ["preserve_order"] }
jsonwebtoken = "=9.3.1"
time = "=0.3.55"
tokio = { version = "=1.54.1", features = ["macros", "rt-multi-thread", "sync"] }
sqlx = { version = "=0.7.4", default-features = false, features = ["postgres", "runtime-tokio", "time", "migrate"] }
reqwest = { version = "=0.12.28", default-features = false, features = ["rustls-tls"] }
envy = "=0.4.2"
dotenvy = "=0.15.7"
dotenv = "=0.15.0"
thiserror = "=1.0.69"
tracing = "=0.1.44"
tracing-subscriber = { version = "=0.3.23", features = ["env-filter", "json"] }
secrecy = "=0.8.0"
once_cell = "=1.21.4"
futures = "=0.3.34"
http = "=1.5.0"
tower = "=0.4.13"
tonic = "=0.12.3"
axum = "=0.7.9"
prost-types = "=0.13.5"
strum = { version = "=0.26.3", features = ["derive"] }
cached = { version = "=4.1.0", features = ["async"] }
env_logger = "=0.11.11"
log = "=0.4.35"
