//! Internet layer protocols.
pub mod icmp;
pub mod icmpv6;
pub mod ipv4;
pub mod ipv6;
