[package]
name = "pfpet"
version = "0.1.0"
edition = "2021"
publish = false

[dependencies]
image = { version = "=0.24.9", default-features = false, features = ["png", "gif", "jpeg"] }
md5 = "=0.7.0"
actix-web = { version = "=4.18.1", default-features = false, features = ["macros", "compress-brotli", "compress-gzip"] }
actix-cors = "=0.7.2"
awc = { version = "=3.11.0", default-features = false }
retainer = "=0.3.0"
serde = { version = "=1.0.229", features = ["derive"] }
lazy_static = "=1.5.1"
dotenv = "=0.15.0"
