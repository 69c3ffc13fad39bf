[package]
name = "league_config_manager"
version = "0.1.0"
edition = "2021"
publish = false

[dependencies]
zip = { version = "=9.1.0", default-features = false, features = ["deflate", "time"] }
rust-ini = "=0.21.3"
serde = { version = "=1.0.229", features = ["derive"] }
serde_json = "=1.0.154"
directories = "=6.0.0"
tokio = { version = "=1.54.1", features = ["rt-multi-thread", "time", "sync"] }
reqwest = { version = "=0.13.5", default-features = false, features = ["form", "rustls"] }
rfd = { version = "=0.17.2", default-features = false, features = ["xdg-portal"] }
iced = { version = "=0.13.1", default-features = false, features = ["tokio", "advanced"] }
