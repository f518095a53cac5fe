[package]
name = "postgres_actor"
version = "0.1.0"
edition = "2021"
publish = false

[dependencies]
actix = "*"
bb8-postgres = "*"
tokio-postgres = "*"
