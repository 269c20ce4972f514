[package]
name = "spende"
version = "0.1.0"
edition = "2021"
publish = false

[dependencies]
bcrypt = "*"
hmac = "0.12"
jwt = "0.16"
sha2 = "0.10"
snowflake_me = "*"
