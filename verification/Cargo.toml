[package]
name = "ltengine"
version = "0.1.1"
edition = "2021"
publish = false

[dependencies]
subtle = "2"
actix-web = "4"
actix-multipart = "0.7"
anyhow = "1"
async-trait = "0.1"
bleuscore = "*"
clap = { version = "4", features = ["derive", "env"] }
reqwest = { version = "0.12", default-features = false, features = ["json", "rustls-tls"] }
serde = { version = "1", features = ["derive"] }
serde_json = "1"
tokio = { version = "1", features = ["full"] }
whatlang = "*"
