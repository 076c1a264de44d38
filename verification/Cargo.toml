[package]
name = "mint_lock_swap_nfts"
version = "0.1.0"
edition = "2021"
publish = false

[dependencies]
anchor-lang = { version = "0.31.1", features = ["init-if-needed"] }
mpl-core = "=0.11.2"
