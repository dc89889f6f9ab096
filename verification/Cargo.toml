[package]
name = "emlrustlib"
version = "0.1.0"
edition = "2021"
publish = false

[dependencies]
serde_json = "=1.0.151"
csv = "=1.4.0"
chrono = "*"
clap = { version = "*", features = ["derive"] }
dotenv = "*"
dirs = "*"
walkdir = "*"
mail-parser = "*"
regex = "*"
reqwest = { version = "*", default-features = false, features = ["query"] }
scraper = "*"
tokio = { version = "*", features = ["macros", "rt-multi-thread", "time"] }
