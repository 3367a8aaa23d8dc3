[package]
name = "anthic"
version = "0.1.0"
edition = "2021"
publish = false

[dependencies]
radix-common = "*"
radix-common-derive = "*"
radix-engine-interface = "*"
radix-transactions = "*"
hex = "*"
serde = { version = "*", features = ["derive"] }
reqwest = { version = "*", default-features = false, features = ["json", "rustls-tls"] }
tokio = { version = "*", features = ["macros", "rt-multi-thread"] }
