[package]
name = "s3rename"
version = "0.1.0"
edition = "2021"
publish = false

[dependencies]
sedregex = "*"
rusoto_core = { version = "*", default-features = false, features = ["rustls"] }
rusoto_s3 = { version = "*", default-features = false, features = ["rustls"] }
tokio = { version = "*", features = ["macros", "rt-multi-thread"] }
futures = "*"
anyhow = "*"
structopt = "*"
