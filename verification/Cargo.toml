[package]
name = "rating_link"
version = "0.1.0"
edition = "2021"
publish = false

[dependencies]
askama = "=0.16.1"
mobc = "=0.9.0"
mobc-redis = "=0.9.0"
serde = { version = "=1.0.229", features = ["derive"] }
thiserror = "=2.0.21"
tokio = { version = "=1.53.2", features = ["macros", "rt-multi-thread"] }
warp = { version = "=0.4.3", features = ["server"] }
