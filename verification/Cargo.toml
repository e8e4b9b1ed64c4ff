[package]
name = "incubator"
version = "0.1.0"
edition = "2021"
publish = false

[dependencies]
anchor-lang = "0.25.0"
anchor-spl = { version = "0.25.0", default-features = false, features = ["token"] }
mpl-token-metadata = { version = "1.6.5", features = ["no-entrypoint"] }
mpl-candy-machine = { version = "4.0.2", features = ["cpi"] }
