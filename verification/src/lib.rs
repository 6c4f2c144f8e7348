//! A TLS-aware forwarding proxy core.
//!
//! The library holds the verified logic of a transparent proxy that reads the
//! Server Name Indication out of a TLS ClientHello and relays the connection
//! to that host through a SOCKS5 upstream: the SNI extractor (a parser over
//! raw bytes), the per-connection relay state machine, and the byte-pump
//! model. All I/O lives outside the library.

pub mod pump;
pub mod relay;
pub mod sni;
