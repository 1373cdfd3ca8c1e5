[package]
name = "gauge"
version = "0.1.0"
edition = "2021"
publish = false

[dependencies]
anchor-lang = "=0.24.2"
# No code names lazy_static or log. They are held at these versions because
# locked-voter and govern accept any anchor-lang from 0.22 on: the later
# lines of anchor-lang need later versions of both, so with these two held
# every crate below resolves to the one anchor-lang 0.24.2 and builds.
lazy_static = "=1.4.0"
locked-voter = { version = "=0.5.8", features = ["cpi"] }
log = "=0.4.17"
num-traits = "=0.2.19"
quarry-mine = { version = "=5.2.0", features = ["cpi"] }
quarry-operator = { version = "=5.2.0", features = ["cpi"] }
vipers = "=2.0.6"
