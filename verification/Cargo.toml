[package]
name = "odoo_18_quotations_to_19"
version = "0.1.0"
edition = "2021"
publish = false

[dependencies]
anyhow = "1"
clap = { version = "4", features = ["derive"] }
derive_more = { version = "2", features = ["display"] }
either = { version = "1", features = ["serde"] }
env_logger = "*"
log = "0.4"
regex = "1"
reqwest = { version = "0.12", default-features = false, features = ["json"] }
serde = { version = "1", features = ["derive"] }
serde_json = "1"
struct-field-names-as-array = "*"
thiserror = "2"
tokio = { version = "1", features = ["macros", "rt-multi-thread"] }
toml = "*"
url = { version = "2", features = ["serde"] }
