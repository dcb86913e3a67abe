[package]
name = "spectrum_lookup"
version = "0.1.0"
edition = "2021"
publish = false

[dependencies]
num-format = "0.4"
dotenv = "0.15"
poise = "0.6"
serenity = "0.12"
serde = { version = "1", features = ["derive"] }
sqlx = { version = "0.8", features = ["runtime-tokio", "postgres", "json"] }
tokio = { version = "1", features = ["macros", "rt-multi-thread"] }
ureq = { version = "3", features = ["json"] }
thiserror = "2"
