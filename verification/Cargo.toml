[package]
name = "read-it-later"
version = "0.1.0"
edition = "2021"
publish = false

[dependencies]
url = "2"
regex = "1"
sanitize_html = "*"
chrono = "0.4"
sha1 = "0.10"
base16ct = { version = "0.2", features = ["alloc"] }
wallabag-api = "*"
anyhow = "1"
async-std = "1"
futures = "0.3"
log = "0.4"
isahc = "1"
gettext-rs = "*"
diesel = { version = "2", features = ["sqlite", "r2d2", "chrono"] }
diesel_migrations = "2"
secret-service = { version = "*", features = ["rt-async-io-crypto-rust"] }
gtk4 = "*"
libadwaita = "*"
webkit6 = "*"
