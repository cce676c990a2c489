[package]
name = "hopbot"
version = "0.1.0"
edition = "2021"
publish = false

[dependencies]
chrono = "*"
dotenv = "*"
krakenrs = "*"
once_cell = "*"
rust_decimal = "*"
serde_any = "*"
takecell = "=0.1.1"
teloxide = { version = "=0.12.2", features = ["macros"] }
tokio = { version = "*", features = ["full"] }
