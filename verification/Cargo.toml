[package]
name = "fakeguard"
version = "0.1.0"
edition = "2021"
publish = false

[dependencies]
anyhow = "*"
dptree = "=0.5.1"
log = "*"
mongodb = "=3.9.1"
serde = { version = "*", features = ["derive"] }
takecell = "=0.1.1"
teloxide = { version = "=0.17.0", default-features = false, features = ["rustls", "ctrlc_handler"] }
tokio = { version = "=1.53.2", features = ["macros", "rt-multi-thread"] }
