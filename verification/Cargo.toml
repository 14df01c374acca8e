[package]
name = "libretranslate"
version = "0.5.1"
edition = "2021"
publish = false

[dependencies]
serde_json = "1"
unic-langid = "*"
whatlang = "*"
surf = { version = "2", default-features = false, features = ["h1-client-rustls"] }
