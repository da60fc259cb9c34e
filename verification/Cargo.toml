[package]
name = "report_views"
version = "0.1.0"
edition = "2021"
publish = false

[dependencies]
diesel = { version = "=2.2.12", features = ["postgres_backend"] }
diesel-async = { version = "=0.5.2", features = ["postgres"] }
actix-web = { version = "=4.18.1", default-features = false }
futures-util = { version = "=0.3.34" }
