//! Link layer protocols.
pub mod arp;
pub mod ethernet;
