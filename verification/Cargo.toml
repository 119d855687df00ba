[package]
name = "qlira_web_server"
version = "0.1.1"
edition = "2021"
publish = false

[dependencies]
actix = "0.13"
actix-web = "4"
actix-web-actors = "4"
brotli = "*"
chrono = "0.4"
flate2 = "1"
futures = "0.3"
hex = "0.4"
mime_guess = "2"
minify-js = "*"
notify = "*"
rand = "0.8"
ring = "0.17"
serde = { version = "1", features = ["derive"] }
serde_json = "1"
toml = "*"
wait-timeout = "0.2"
