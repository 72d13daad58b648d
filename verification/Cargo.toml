[package]
name = "apple-kms"
version = "0.1.0"
edition = "2021"
publish = false

[dependencies]
anyhow = "1"
aws-config = { version = "1", features = ["behavior-version-latest"] }
aws-sdk-kms = { version = "1", features = ["behavior-version-latest"] }
base64 = "0.22"
bytes = "1"
der = "0.7"
dirs = "5"
jsonwebtoken = "9"
log = "0.4"
p256 = "0.13"
pem = "3"
serde = { version = "1", features = ["derive"] }
serde_json = { version = "1", features = ["preserve_order"] }
sha2 = "0.10"
signature = "2"
spki = "0.7"
thiserror = "1"
tokio = { version = "1", features = ["rt", "net", "time"] }
x509-certificate = "0.24"
zeroize = "1"

[dev-dependencies]
rand = "0.8"
