[package]
name = "na"
version = "0.1.0"
edition = "2021"
publish = false

[dependencies]
actix-rt = "=2.15.0"
actix-web = { version = "=4.18.1", default-features = false, features = ["macros"] }
argon2 = { version = "=0.5.3", features = ["std"] }
chrono = { version = "=0.4.45", features = ["serde"] }
config = { version = "=0.14.1", default-features = false, features = ["toml", "preserve_order"] }
diesel = { version = "=2.3.14", features = ["postgres", "r2d2", "chrono"] }
env_logger = { version = "=0.11.11", default-features = false }
futures-util = "=0.3.34"
jsonwebtoken = "=9.3.1"
log = "=0.4.35"
r2d2 = "=0.8.10"
serde = { version = "=1.0.229", features = ["derive"] }
serde_derive = "=1.0.229"
serde_json = { version = "=1.0.154", features = ["preserve_order"] }
thiserror = "=1.0.69"
