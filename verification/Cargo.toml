[package]
name = "kin"
version = "0.1.0"
edition = "2021"
publish = false

[dependencies]
sodiumoxide = "0.2"
base64 = "0.13"
zip = { version = "0.6", default-features = false, features = ["deflate"] }
serde = { version = "*", features = ["derive"] }
serde_json = "*"
structopt = "*"
rpassword = "*"
mustache = "*"
pulldown-cmark = "*"
