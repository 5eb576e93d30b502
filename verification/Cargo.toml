[package]
name = "generator_manager"
version = "0.1.0"
edition = "2021"
publish = false

[dependencies]
serde = { version = "1", features = ["derive"] }
serde_json = "1"
chrono = "0.4"
lci-gateway = "*"
rumqttc = "*"
tokio = { version = "1", features = ["full"] }
rocket = { version = "0.5", features = ["json"] }
rocket_dyn_templates = { version = "*", features = ["tera"] }
thiserror = "*"
ctrlc = "*"
env_logger = "*"
log = "0.4"
