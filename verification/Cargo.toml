[package]
name = "secret_env"
version = "0.1.0"
edition = "2021"
publish = false

[dependencies]
serde_json = "=1.0.151"
clap = { version = "=4.6.7", features = ["derive", "env"] }
gouth = "=0.2.1"
googapis = { version = "=0.6.0", default-features = false, features = ["google-cloud-secretmanager-v1"] }
tokio = { version = "=1.53.2", features = ["rt-multi-thread", "macros"] }
tonic = { version = "=0.6.2", features = ["tls"] }
