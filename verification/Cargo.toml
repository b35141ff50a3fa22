[package]
name = "sh_lib"
version = "0.1.0"
edition = "2021"
publish = false

[dependencies]
uuid = { version = "*", features = ["v4", "v5"] }
chrono = "*"
rand = "*"
tokio = { version = "*", features = ["full"] }
dotenv = "*"
