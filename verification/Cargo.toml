[package]
name = "clip_relay"
version = "0.1.0"
edition = "2021"
publish = false

[dependencies]
actix = "0.13"
actix-cors = "0.7"
actix-web = "4"
actix-web-actors = "4"
reqwest = { version = "0.12", features = ["json"] }
serde = { version = "1", features = ["derive"] }
serde_json = "1"
twitch_comment_stream = "*"
