[package]
name = "carton"
version = "0.1.0"
edition = "2021"
publish = false

[dependencies]
anyhow = "=1.0.104"
clap = { version = "=4.6.7", features = ["derive"] }
hcloud = "=0.21.0"
serde = { version = "=1.0.229", features = ["derive"] }
serde_json = "=1.0.154"
tokio = { version = "=1.54.1", features = ["rt-multi-thread"] }
tui-realm-stdlib = "=1.3.2"
tuirealm = "=1.9.2"
uuid = { version = "=1.29.0", features = ["v4"] }
