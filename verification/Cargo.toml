[package]
name = "pi_bot"
version = "0.1.0"
edition = "2021"
publish = false

[dependencies]
num-bigint = "0.4"
rand = "0.9"
chrono = "0.4"
serde = { version = "1", features = ["derive"] }
thiserror = "2"
log = "0.4"
envy = "0.4"
dotenv = "0.15"
env_logger = "0.11"
simple_logger = "5"
indoc = "2"
tokio = { version = "1", features = ["macros", "rt-multi-thread", "sync", "time"] }
reqwest = { version = "0.12", features = ["json"] }
sqlx = { version = "0.8", default-features = false, features = ["mysql", "runtime-tokio"] }
actix-web = "4"
poise = "0.6"
