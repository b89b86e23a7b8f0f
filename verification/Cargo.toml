[package]
name = "tidploy"
version = "0.1.0"
edition = "2021"
publish = false

[dependencies]
base64 = "=0.23.1"
clap = { version = "=4.6.7", features = ["derive"] }
directories = "=6.0.0"
duct = "=1.1.2"
keyring = "=4.2.0"
keyring-core = "=1.0.0"
rpassword = "=7.5.4"
serde = { version = "=1.0.229", features = ["derive"] }
serde_json = "=1.0.151"
sha2 = "=0.11.0"
toml = "=1.1.7"

[dev-dependencies]
