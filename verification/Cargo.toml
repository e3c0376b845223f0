[package]
name = "fortunes"
version = "0.1.0"
edition = "2021"
publish = false

[dependencies]
handlebars = "*"
rand = "0.8"
redis = "*"
reqwest = { version = "0.12", default-features = false, features = ["json"] }
serde = { version = "1", features = ["derive"] }
tokio = { version = "1", features = ["macros", "rt-multi-thread", "time", "sync"] }
warp = "0.3"
