[package]
name = "comment_purge"
version = "0.1.0"
edition = "2021"
publish = false

[dependencies]
unicode-normalization = "*"
google-youtube3 = "5"
tokio = { version = "1", features = ["macros", "rt-multi-thread"] }
dotenvy = "*"
