[package]
name = "rigal"
version = "0.1.0"
edition = "2021"
publish = false

[dependencies]
anyhow = "=1.0.104"
futures = "=0.3.34"
image = "=0.25.10"
indicatif = "=0.18.6"
serde = { version = "=1.0.229", features = ["derive"] }
structopt = "=0.3.26"
tera = { version = "=2.4.0", features = ["glob_fs"] }
tokio = { version = "=1.53.2", features = ["fs", "macros", "rt-multi-thread"] }
toml = "=1.1.7"
walkdir = "=2.5.0"
