[package]
name = "rattlehead_bot"
version = "0.1.0"
edition = "2021"
publish = false

[dependencies]
uuid = { version = "=0.8.2", features = ["v4"] }
teloxide = { version = "=0.7.3", default-features = false, features = ["macros", "auto-send", "rustls", "ctrlc_handler", "dispatching2"] }
takecell = "=0.1.1"
tokio = { version = "=1.54.1", features = ["rt-multi-thread", "macros", "sync"] }
tokio-stream = "=0.1.19"
tokio-util = { version = "=0.6.10", features = ["codec"] }
warp = "=0.3.7"
reqwest = { version = "=0.11.27", default-features = false, features = ["rustls-tls"] }
sqlx = { version = "=0.5.13", default-features = false, features = ["runtime-tokio-rustls", "postgres", "uuid"] }
log = "=0.4.34"
futures = "=0.3.34"
serde_json = "=1.0.154"
pretty_env_logger = "0.4"
