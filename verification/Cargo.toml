[package]
name = "totoro"
version = "0.1.0"
edition = "2021"
publish = false

[dependencies]
log = "=0.4.34"
mailchimp = "=0.1.15"
reqwest = { version = "=0.11.27", features = ["blocking", "json"] }
rocket = { version = "0.5", features = ["json"] }
