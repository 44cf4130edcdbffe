[package]
name = "honeypot"
version = "0.1.0"
edition = "2021"
publish = false

[dependencies]
fancy-regex = "=0.20.0"
image = { version = "0.24", default-features = false, features = ["png", "jpeg", "webp", "gif"] }
imagehash = "=0.3.0"
captcha-rs = "0.2"
chrono = { version = "=0.4.45", default-features = false, features = ["clock", "std"] }
serenity = "=0.12.5"
poise = "=0.6.2"
sqlx = { version = "0.8", default-features = false, features = ["runtime-tokio", "postgres", "chrono"] }
reqwest = { version = "=0.12.28", default-features = false, features = ["rustls-tls"] }
tokio = { version = "=1.54.1", features = ["macros", "rt-multi-thread"] }
