[package]
name = "category_service"
version = "0.1.0"
edition = "2021"
publish = false

[dependencies]
actix-cors = "=0.7.2"
actix-web = { version = "=4.18.1", default-features = false, features = ["macros"] }
async-trait = "=0.1.92"
chrono = { version = "=0.4.45", features = ["serde"] }
deadpool-postgres = "=0.12.1"
dotenv = "=0.15.0"
env_logger = "=0.10.2"
futures = "=0.3.34"
lapin = { version = "=2.5.5", default-features = false }
lazy_static = "=1.5.1"
log = "=0.4.34"
pem = "=3.0.6"
redis = { version = "=0.24.1", features = ["tokio-comp"] }
refinery = { version = "=0.8.16", features = ["tokio-postgres"] }
rustls = "=0.21.12"
serde = { version = "=1.0.229", features = ["derive"] }
serde_json = "=1.0.154"
serde_qs = { version = "=0.12.0", features = ["actix4"] }
thiserror = "=1.0.69"
tokio = { version = "=1.54.1", features = ["rt-multi-thread", "macros"] }
tokio-postgres = { version = "=0.7.18", features = ["with-uuid-1", "with-chrono-0_4"] }
tokio-postgres-rustls = "=0.10.0"
utoipa = { version = "=4.2.3", features = ["actix_extras", "uuid", "chrono"] }
utoipa-swagger-ui = { version = "5", features = ["actix-web"] }
uuid = { version = "=1.29.0", features = ["v4", "serde"] }
