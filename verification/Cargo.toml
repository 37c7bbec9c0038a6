[package]
name = "wet_tweet_gpu"
version = "0.1.0"
edition = "2021"
publish = false

[dependencies]
bcrypt = "*"
mongodb = "3"
serde = { version = "1", features = ["derive"] }
tokio = { version = "1", features = ["macros", "rt-multi-thread"] }
futures-util = "0.3"
dotenvy = "0.15"
