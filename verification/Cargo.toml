[package]
name = "calc_api"
version = "0.1.0"
edition = "2021"
publish = false

[dependencies]
num = "0.4"
tokio = { version = "1", features = ["rt-multi-thread", "macros", "signal", "net"] }
axum = "*"
serde = { version = "1", features = ["derive"] }
log = "0.4"
env_logger = "*"
dotenv = "*"
anyhow = "1"
async-trait = "*"
sqlx = { version = "*", default-features = false, features = ["runtime-tokio", "postgres", "derive"] }
