[package]
name = "blog-server"
version = "0.1.0"
edition = "2021"
publish = false

[dependencies]
actix-web = "4"
diesel = { version = "2", features = ["sqlite", "r2d2"] }
diesel_migrations = "2"
clap = { version = "4", features = ["derive"] }
serde = { version = "1", features = ["derive"] }
tracing = "0.1"
tracing-subscriber = { version = "0.3", features = ["env-filter"] }
config = "0.14"
