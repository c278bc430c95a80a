[package]
name = "shop_backend"
version = "0.1.0"
edition = "2021"
publish = false

[dependencies]
actix-web = { version = "4", default-features = false, features = ["macros"] }
actix-cors = "0.7"
bcrypt = "0.15"
chrono = "0.4"
dotenv = "0.15"
futures = "0.3"
jsonwebtoken = "9"
mongodb = { version = "3", default-features = false, features = ["compat-3-0-0", "rustls-tls"] }
serde = { version = "1", features = ["derive"] }
serde_json = "1"
