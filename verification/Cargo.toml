[package]
name = "mechvis"
version = "0.1.0"
edition = "2021"
publish = false

[dependencies]
graphql_client = { version = "*", default-features = false }
reqwest = { version = "*", default-features = false, features = ["json"] }
tokio = { version = "*", features = ["rt-multi-thread", "macros", "time"] }
serde = { version = "*", features = ["derive"] }
serde_json = "*"
dotenv = "*"
humantime = "*"
cairo-rs = "*"
