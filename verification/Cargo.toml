[package]
name = "buglog"
version = "0.1.0"
edition = "2021"
publish = false

[dependencies]
actix-web = "4"
actix-cors = "*"
chrono = "0.4"
derive_more = "*"
dotenv = "0.15"
fast_log = "*"
log = "0.4"
rbatis = "*"
rbdc-mysql = "*"
rbs = "*"
serde = { version = "1", features = ["derive"] }
serde_json = "1"
tokio = { version = "1", features = ["macros", "rt-multi-thread"] }
