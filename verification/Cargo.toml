[package]
name = "jbovlaste_xml"
version = "0.1.0"
edition = "2021"
publish = false

[dependencies]
hard-xml = "*"
serde = { version = "*", features = ["derive"] }
serde_json = "*"
ureq = "*"
