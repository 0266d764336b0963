[package]
name = "transaction_manager"
version = "0.1.0"
edition = "2021"
publish = false

[dependencies]
regex = "1"
rust_xlsxwriter = "*"
tokio = { version = "1", features = ["macros", "rt-multi-thread"] }
