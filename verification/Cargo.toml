[package]
name = "plaid_sdk"
version = "0.1.0"
edition = "2021"
publish = false

[dependencies]
actix-server = "2"
actix-web = "4"
async-trait = "0.1"
chrono = { version = "0.4", default-features = false, features = ["std"] }
clap = { version = "4", features = ["derive", "env"] }
diesel = { version = "2", features = ["postgres"] }
env_logger = "0.11"
eyre = "0.6"
log = "0.4"
plaid = "*"
regex = "1"
reqwest = { version = "0.12", features = ["json"] }
serde = { version = "1", features = ["derive"] }
serde_json = { version = "1", features = ["raw_value"] }
thiserror = "1"
tokio = { version = "1", features = ["macros", "rt-multi-thread"] }
