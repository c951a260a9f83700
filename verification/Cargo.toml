[package]
name = "psistats"
version = "0.2.0"
edition = "2021"
publish = false

[dependencies]
libloading = "0.6"
quick-xml = "0.22"
gethostname = "0.2"
serde = { version = "1", features = ["derive"] }
serde_json = "1"
toml = "0.5"
clap = "2"
crossbeam-channel = "0.5"
crossbeam-utils = "0.8"
glob = "0.3"
log = "0.4"
pretty_env_logger = "0.4"
lazy_static = "1"
sysinfo = "0.15"
os_info = "3"
get_if_addrs = "0.5"
uptime_lib = "0.2"
scoped_threadpool = "0.1"
thiserror = "1"
