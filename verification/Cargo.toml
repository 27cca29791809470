[package]
name = "fakey_cognito"
version = "0.1.0"
edition = "2021"
publish = false

[dependencies]
hyper = "0.14"
serde = { version = "1", features = ["derive"] }
serde_json = "1"
structopt = "0.3"
tokio = { version = "1", features = ["macros", "rt-multi-thread", "sync", "fs"] }
warp = "0.3"
