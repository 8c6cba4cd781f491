[package]
name = "mrvn_front_discord"
version = "0.1.0"
edition = "2021"
publish = false

[dependencies]
futures = "0.3"
log = "0.4"
rand = "0.8"
serenity = { version = "0.10", features = ["unstable_discord_api"] }
tokio = { version = "1", features = ["macros", "rt-multi-thread", "sync", "time"] }
