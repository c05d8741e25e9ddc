[package]
name = "user_credentials"
version = "0.1.0"
edition = "2021"
publish = false

[dependencies]
rust-argon2 = "0.8"
rand = "0.7"
diesel = { version = "1.4", features = ["postgres", "r2d2"] }
actix-web = { version = "4", default-features = false, features = ["macros"] }
serde = { version = "1", features = ["derive"] }
serde_json = "1"
