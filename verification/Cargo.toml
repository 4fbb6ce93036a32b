[package]
name = "fpl_tables"
version = "0.1.0"
edition = "2021"
publish = false

[dependencies]
csv = "=1.4.0"
serde_json = "=1.0.154"
reqwest = "=0.11.27"
tokio = { version = "=1.54.1", features = ["macros", "rt-multi-thread"] }
structopt = "=0.3.26"
datafusion = "=5.0.0"
hashbrown = { version = "=0.11.2", features = ["raw"] }
