[package]
name = "podfetch"
version = "0.1.0"
edition = "2021"
publish = false

[dependencies]
sha256 = { version = "1", default-features = false }
base64 = "0.21"
actix-web = { version = "4", default-features = false, features = ["cookies"] }
awc = { version = "3", default-features = false, features = ["cookies"] }
chrono = { version = "0.4", default-features = false, features = ["clock", "std"] }
diesel = { version = "2", default-features = false, features = ["sqlite", "chrono"] }
dotenv = "0.15"
