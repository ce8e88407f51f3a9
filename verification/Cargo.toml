[package]
name = "authful"
version = "0.1.0"
edition = "2021"
publish = false

[dependencies]
sha2 = "0.8"
hex = "0.4"
rand = "0.7"
uuid = { version = "0.8", features = ["v4"] }
chrono = "0.4"
argonautica = "0.2"
actix-web = { version = "1.0", default-features = false }
actix-cors = "0.1"
diesel = { version = "1.4", features = ["postgres", "r2d2", "chrono", "uuidv07"] }
dotenv = "0.15"
env_logger = "0.6"
futures = "0.1"
lazy_static = "1"
serde = { version = "1", features = ["derive"] }
serde_derive = "1"
time = "0.1"
