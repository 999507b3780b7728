[package]
name = "application"
version = "0.1.0"
edition = "2021"
publish = false

[dependencies]
chrono = { version = "0.4", default-features = false, features = ["clock", "std"] }
diesel = { version = "2", default-features = false, features = ["sqlite", "r2d2", "chrono"] }
diesel_migrations = { version = "2", default-features = false, features = ["sqlite"] }
futures = "0.3"
uuid = { version = "1", features = ["v4"] }
