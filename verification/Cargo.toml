[package]
name = "identity_gate"
version = "0.1.0"
edition = "2021"
publish = false

[dependencies]
actix-web = { version = "*", default-features = false, features = ["macros", "cookies"] }
actix-identity = "*"
actix-session = { version = "*", features = ["cookie-session"] }
actix-cors = "*"
futures-util = { version = "*", default-features = false }
