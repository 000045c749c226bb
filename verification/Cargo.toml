[package]
name = "rtnl_monitor"
version = "0.1.0"
edition = "2021"
publish = false

[dependencies]
futures = "=0.3.34"
netlink-packet-core = "=0.7.0"
netlink-packet-route = "=0.19.0"
netlink-sys = { version = "=0.8.8", features = ["tokio_socket"] }
rtnetlink = "=0.14.1"
tokio = { version = "=1.54.1", features = ["macros", "rt-multi-thread"] }
