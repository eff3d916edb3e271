[package]
name = "summarizator"
version = "0.1.0"
edition = "2021"
publish = false

[dependencies]
chrono = "0.4"
serde = { version = "1", features = ["derive"] }
serde_json = "1"
telegram-bot = "0.7"
dgraph = "*"
futures = "0.3"
tokio = { version = "0.2", features = ["macros", "rt-threaded"] }
clokwerk = "0.3"
dotenv_codegen = "0.15"
