[package]
name = "zero2prod"
version = "0.1.0"
edition = "2021"
publish = false

[dependencies]
validator = "0.16"
unicode-segmentation = "1"
serde = { version = "1", features = ["derive"] }
serde-aux = "4"
actix-web = { version = "4", default-features = false, features = ["macros"] }
sqlx = { version = "0.7", default-features = false, features = ["postgres", "runtime-tokio", "uuid", "chrono"] }
reqwest = { version = "0.11", default-features = false, features = ["json"] }
config = { version = "0.11", default-features = false, features = ["yaml"] }
chrono = { version = "0.4", default-features = false, features = ["clock"] }
uuid = { version = "1", features = ["v4"] }
log = "0.4"
