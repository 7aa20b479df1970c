[package]
name = "liquifier"
version = "0.1.0"
edition = "2021"
publish = false

[dependencies]
solana-program = "=1.14.29"
spl-token = { version = "=3.5.0", features = ["no-entrypoint"] }
spl-associated-token-account = { version = "=1.1.3", features = ["no-entrypoint"] }
mpl-token-metadata = { version = "=1.7.0", features = ["no-entrypoint"] }
# Not called: pinned so that mpl-token-metadata 1.7.0 builds (later 1.x
# releases derive its borsh types with a newer borsh than it uses).
mpl-token-auth-rules = { version = "~1.0", features = ["no-entrypoint"] }
anchor-lang = "=0.26.0"
anchor-spl = { version = "=0.26.0", default-features = false, features = ["token", "associated_token"] }
