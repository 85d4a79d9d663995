[package]
name = "org_node"
version = "0.1.0"
edition = "2021"
publish = false

[dependencies]
sha2 = "*"
base64 = "*"
serde = { version = "*", features = ["derive"] }
serde_json = "*"
ureq = { version = "*", default-features = false }
git2 = { version = "*", default-features = false }
envconfig = "*"
anyhow = "*"
thiserror = "*"
