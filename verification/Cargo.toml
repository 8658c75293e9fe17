[package]
name = "commune"
version = "0.1.0"
edition = "2021"
publish = false

[dependencies]
base64 = "0.13"
bcrypt = "0.10"
bytes = "1"
chrono = "0.4"
diesel = { version = "1.4", features = ["postgres", "r2d2", "chrono"] }
dotenv = "0.15"
getopts = "0.2"
http = "0.2"
idna = "0.2"
log = "0.4"
openssl = "0.10"
pretty_env_logger = "0.4"
r2d2 = "0.8"
reqwest = { version = "0.11", features = ["json"] }
rpassword = "5"
serde = { version = "1", features = ["derive"] }
serde_json = "1"
thiserror = "1"
tokio = { version = "1", features = ["full"] }
url = "2"
validator = { version = "0.14", features = ["derive", "unic"] }
warp = { version = "0.3", default-features = false }

[dev-dependencies]
serde_urlencoded = "0.7"
