[package]
name = "todoist"
version = "0.1.0"
edition = "2021"
publish = false

[dependencies]
clap = { version = "*", features = ["derive"] }
clap_complete = "*"
comfy-table = "*"
dialoguer = { version = "*", features = ["fuzzy-select"] }
dirs = "*"
figment = { version = "*", features = ["yaml"] }
reqwest = { version = "*", default-features = false, features = ["json"] }
serde = { version = "*", features = ["derive"] }
serde_json = "*"
tokio = { version = "*", features = ["macros", "rt-multi-thread"] }
yansi = "*"
