[package]
name = "haisin"
version = "0.1.0"
edition = "2021"
publish = false

[dependencies]
scraper = "=0.27.0"
actix-web = { version = "=4.15.0", default-features = false, features = ["macros"] }
awc = { version = "=3.8.2", default-features = false }
actix-rt = "=2.15.0"
async-trait = "=0.1.92"
atom_syndication = "=0.12.10"
chrono = { version = "=0.4.45", features = ["serde"] }
serde = { version = "=1.0.229", features = ["derive"] }
env_logger = "=0.11.11"
envy = "=0.4.2"
