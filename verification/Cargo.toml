[package]
name = "wallet_tui"
version = "0.1.0"
edition = "2021"
publish = false

[dependencies]
alloy = { version = "*", default-features = false, features = ["std", "signers", "signer-local", "transports"] }
inquire = { version = "*", default-features = false, features = ["console"] }
ratatui = { version = "*", default-features = false }
reqwest = { version = "*", default-features = false, features = ["blocking"] }
serde_json = "*"
serde_path_to_error = "*"
serde_yaml = "*"
toml = "*"
url = "*"
