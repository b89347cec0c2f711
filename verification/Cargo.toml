[package]
name = "reporteer"
version = "0.1.0"
edition = "2021"
publish = false

[dependencies]
sha2 = "*"
url = "*"
actix-web = { version = "*", default-features = false, features = ["macros"] }
reqwest = { version = "*", default-features = false }
tokio = { version = "*", default-features = false, features = ["macros", "rt-multi-thread"] }
env_logger = { version = "*", default-features = false }
log = "*"

[dev-dependencies]
serde_json = "*"
