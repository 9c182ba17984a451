[package]
name = "discord_bot"
version = "0.1.0"
edition = "2021"
publish = false

[dependencies]
ascii_table = "4"
serenity = "0.11"
tokio = { version = "1", features = ["macros", "rt-multi-thread"] }
async-trait = "0.1"
rand = "0.8"
dotenv = "0.15"
tracing = "0.1"
tracing-subscriber = { version = "0.3", features = ["env-filter"] }
yahoo_finance_api = "1"
