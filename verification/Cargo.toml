[package]
name = "rustpad_server"
version = "0.1.0"
edition = "2021"
publish = false

[dependencies]
anyhow = "1"
dotenv = "0.15"
log = "0.4"
pretty_env_logger = "0.4"
reqwest = { version = "0.11", default-features = false, features = ["rustls-tls"] }
sqlx = { version = "0.7", default-features = false, features = ["runtime-tokio", "tls-rustls", "postgres"] }
tokio = { version = "1", features = ["macros", "rt-multi-thread", "time"] }
warp = "0.3"
