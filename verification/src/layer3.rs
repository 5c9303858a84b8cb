//! Transport layer protocols.
pub mod tcp;
pub mod tls;
pub mod udp;
