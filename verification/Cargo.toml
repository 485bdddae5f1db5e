[package]
name = "authcore"
version = "0.1.0"
edition = "2021"
publish = false

[dependencies]
rust-argon2 = "=3.0.0"
sha2 = "=0.10.9"
hmac = "=0.12.1"
regex = "=1.13.1"
p256 = "=0.13.2"
uuid = { version = "=1.27.0", features = ["v4"] }
rand = "=0.8.8"
lettre = { version = "=0.11.23", default-features = false, features = ["smtp-transport", "builder"] }
envfile = "=0.2.1"
read_input = "=0.8.6"
