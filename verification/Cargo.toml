[package]
name = "sss_token"
version = "0.1.0"
edition = "2021"
publish = false

[dependencies]
anchor-lang = { version = "*", features = ["init-if-needed"] }
spl-token-2022 = { version = "*", features = ["no-entrypoint"] }
spl-transfer-hook-interface = "*"
spl-tlv-account-resolution = "*"
spl-discriminator = "*"
